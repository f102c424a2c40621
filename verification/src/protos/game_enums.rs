//! Enumerations describing players, rooms and cards on the game board.
use vstd::prelude::*;
use vstd::std_specs::convert::FromSpecImpl;

use crate::text::str_eq;

verus! {

/// Wire enumeration `PlayerSide` of the client protocol.
#[derive(Clone, Copy, Debug, PartialEq, Eq, Structural, Hash, PartialOrd, Ord)]
pub enum PlayerSide {
    Unspecified,
    Overlord,
    Champion,
}

impl PlayerSide {
    /// The field name of this value in the protocol definition.
    pub open spec fn spec_name(self) -> Seq<char> {
        match self {
            PlayerSide::Unspecified => "PLAYER_SIDE_UNSPECIFIED"@,
            PlayerSide::Overlord => "PLAYER_SIDE_OVERLORD"@,
            PlayerSide::Champion => "PLAYER_SIDE_CHAMPION"@,
        }
    }

    /// The value decoded from a protocol field name, if it names one.
    pub open spec fn spec_from_name(name: Seq<char>) -> Option<PlayerSide> {
        if name == "PLAYER_SIDE_UNSPECIFIED"@ {
            Some(PlayerSide::Unspecified)
        } else if name == "PLAYER_SIDE_OVERLORD"@ {
            Some(PlayerSide::Overlord)
        } else if name == "PLAYER_SIDE_CHAMPION"@ {
            Some(PlayerSide::Champion)
        } else {
            None
        }
    }

    /// The number by which this value is encoded on the wire.
    pub open spec fn spec_value(self) -> i32 {
        match self {
            PlayerSide::Unspecified => 0,
            PlayerSide::Overlord => 1,
            PlayerSide::Champion => 2,
        }
    }

    /// The value encoded on the wire by `value`, if any.
    pub open spec fn spec_from_i32(value: i32) -> Option<PlayerSide> {
        if value == 0 {
            Some(PlayerSide::Unspecified)
        } else if value == 1 {
            Some(PlayerSide::Overlord)
        } else if value == 2 {
            Some(PlayerSide::Champion)
        } else {
            None
        }
    }

    /// String value of the enum field names used in the protocol definition.
    pub fn as_str_name(&self) -> (name: &'static str)
        ensures
            name@ == self.spec_name(),
    {
        match self {
            PlayerSide::Unspecified => "PLAYER_SIDE_UNSPECIFIED",
            PlayerSide::Overlord => "PLAYER_SIDE_OVERLORD",
            PlayerSide::Champion => "PLAYER_SIDE_CHAMPION",
        }
    }

    /// Creates a value from a field name used in the protocol definition.
    pub fn from_str_name(value: &str) -> (res: Option<PlayerSide>)
        ensures
            res == PlayerSide::spec_from_name(value@),
    {
        if str_eq(value, "PLAYER_SIDE_UNSPECIFIED") {
            Some(PlayerSide::Unspecified)
        } else if str_eq(value, "PLAYER_SIDE_OVERLORD") {
            Some(PlayerSide::Overlord)
        } else if str_eq(value, "PLAYER_SIDE_CHAMPION") {
            Some(PlayerSide::Champion)
        } else {
            None
        }
    }

    /// Decodes a wire number, returning `None` for numbers that name no value.
    pub fn from_i32(value: i32) -> (res: Option<PlayerSide>)
        ensures
            res == PlayerSide::spec_from_i32(value),
    {
        match value {
            0 => Some(PlayerSide::Unspecified),
            1 => Some(PlayerSide::Overlord),
            2 => Some(PlayerSide::Champion),
            _ => None,
        }
    }

    /// Whether `value` is the wire number of some value.
    pub fn is_valid(value: i32) -> (res: bool)
        ensures
            res == PlayerSide::spec_from_i32(value).is_some(),
    {
        PlayerSide::from_i32(value).is_some()
    }

    /// A value's field name and wire number each decode back to that value,
    /// and no other field name or number decodes to it.
    pub proof fn lemma_round_trip(self)
        ensures
            PlayerSide::spec_from_name(self.spec_name()) == Some(self),
            PlayerSide::spec_from_i32(self.spec_value()) == Some(self),
            forall|name: Seq<char>|
                #[trigger] PlayerSide::spec_from_name(name) == Some(self) ==> name == self.spec_name(),
            forall|value: i32|
                #[trigger] PlayerSide::spec_from_i32(value) == Some(self) ==> value == self.spec_value(),
    {
        reveal_strlit("PLAYER_SIDE_UNSPECIFIED");
        reveal_strlit("PLAYER_SIDE_OVERLORD");
        reveal_strlit("PLAYER_SIDE_CHAMPION");
        assert("PLAYER_SIDE_UNSPECIFIED"@.len() == 23);
        assert("PLAYER_SIDE_OVERLORD"@.len() == 20);
        assert("PLAYER_SIDE_CHAMPION"@.len() == 20);
        assert("PLAYER_SIDE_OVERLORD"@[12] != "PLAYER_SIDE_CHAMPION"@[12]);
        match self {
            PlayerSide::Unspecified => {},
            PlayerSide::Overlord => {},
            PlayerSide::Champion => {},
        }
    }
}

impl Default for PlayerSide {
    /// The value with wire number zero.
    fn default() -> (res: PlayerSide)
        ensures
            res == PlayerSide::Unspecified,
    {
        PlayerSide::Unspecified
    }
}

impl From<PlayerSide> for i32 {
    fn from(value: PlayerSide) -> (res: i32) {
        match value {
            PlayerSide::Unspecified => 0,
            PlayerSide::Overlord => 1,
            PlayerSide::Champion => 2,
        }
    }
}

impl FromSpecImpl<PlayerSide> for i32 {
    open spec fn obeys_from_spec() -> bool {
        true
    }

    open spec fn from_spec(value: PlayerSide) -> i32 {
        value.spec_value()
    }
}

/// Wire enumeration `PlayerName` of the client protocol.
#[derive(Clone, Copy, Debug, PartialEq, Eq, Structural, Hash, PartialOrd, Ord)]
pub enum PlayerName {
    Unspecified,
    User,
    Opponent,
}

impl PlayerName {
    /// The field name of this value in the protocol definition.
    pub open spec fn spec_name(self) -> Seq<char> {
        match self {
            PlayerName::Unspecified => "PLAYER_NAME_UNSPECIFIED"@,
            PlayerName::User => "PLAYER_NAME_USER"@,
            PlayerName::Opponent => "PLAYER_NAME_OPPONENT"@,
        }
    }

    /// The value decoded from a protocol field name, if it names one.
    pub open spec fn spec_from_name(name: Seq<char>) -> Option<PlayerName> {
        if name == "PLAYER_NAME_UNSPECIFIED"@ {
            Some(PlayerName::Unspecified)
        } else if name == "PLAYER_NAME_USER"@ {
            Some(PlayerName::User)
        } else if name == "PLAYER_NAME_OPPONENT"@ {
            Some(PlayerName::Opponent)
        } else {
            None
        }
    }

    /// The number by which this value is encoded on the wire.
    pub open spec fn spec_value(self) -> i32 {
        match self {
            PlayerName::Unspecified => 0,
            PlayerName::User => 1,
            PlayerName::Opponent => 2,
        }
    }

    /// The value encoded on the wire by `value`, if any.
    pub open spec fn spec_from_i32(value: i32) -> Option<PlayerName> {
        if value == 0 {
            Some(PlayerName::Unspecified)
        } else if value == 1 {
            Some(PlayerName::User)
        } else if value == 2 {
            Some(PlayerName::Opponent)
        } else {
            None
        }
    }

    /// String value of the enum field names used in the protocol definition.
    pub fn as_str_name(&self) -> (name: &'static str)
        ensures
            name@ == self.spec_name(),
    {
        match self {
            PlayerName::Unspecified => "PLAYER_NAME_UNSPECIFIED",
            PlayerName::User => "PLAYER_NAME_USER",
            PlayerName::Opponent => "PLAYER_NAME_OPPONENT",
        }
    }

    /// Creates a value from a field name used in the protocol definition.
    pub fn from_str_name(value: &str) -> (res: Option<PlayerName>)
        ensures
            res == PlayerName::spec_from_name(value@),
    {
        if str_eq(value, "PLAYER_NAME_UNSPECIFIED") {
            Some(PlayerName::Unspecified)
        } else if str_eq(value, "PLAYER_NAME_USER") {
            Some(PlayerName::User)
        } else if str_eq(value, "PLAYER_NAME_OPPONENT") {
            Some(PlayerName::Opponent)
        } else {
            None
        }
    }

    /// Decodes a wire number, returning `None` for numbers that name no value.
    pub fn from_i32(value: i32) -> (res: Option<PlayerName>)
        ensures
            res == PlayerName::spec_from_i32(value),
    {
        match value {
            0 => Some(PlayerName::Unspecified),
            1 => Some(PlayerName::User),
            2 => Some(PlayerName::Opponent),
            _ => None,
        }
    }

    /// Whether `value` is the wire number of some value.
    pub fn is_valid(value: i32) -> (res: bool)
        ensures
            res == PlayerName::spec_from_i32(value).is_some(),
    {
        PlayerName::from_i32(value).is_some()
    }

    /// A value's field name and wire number each decode back to that value,
    /// and no other field name or number decodes to it.
    pub proof fn lemma_round_trip(self)
        ensures
            PlayerName::spec_from_name(self.spec_name()) == Some(self),
            PlayerName::spec_from_i32(self.spec_value()) == Some(self),
            forall|name: Seq<char>|
                #[trigger] PlayerName::spec_from_name(name) == Some(self) ==> name == self.spec_name(),
            forall|value: i32|
                #[trigger] PlayerName::spec_from_i32(value) == Some(self) ==> value == self.spec_value(),
    {
        reveal_strlit("PLAYER_NAME_UNSPECIFIED");
        reveal_strlit("PLAYER_NAME_USER");
        reveal_strlit("PLAYER_NAME_OPPONENT");
        assert("PLAYER_NAME_UNSPECIFIED"@.len() == 23);
        assert("PLAYER_NAME_USER"@.len() == 16);
        assert("PLAYER_NAME_OPPONENT"@.len() == 20);
        match self {
            PlayerName::Unspecified => {},
            PlayerName::User => {},
            PlayerName::Opponent => {},
        }
    }
}

impl Default for PlayerName {
    /// The value with wire number zero.
    fn default() -> (res: PlayerName)
        ensures
            res == PlayerName::Unspecified,
    {
        PlayerName::Unspecified
    }
}

impl From<PlayerName> for i32 {
    fn from(value: PlayerName) -> (res: i32) {
        match value {
            PlayerName::Unspecified => 0,
            PlayerName::User => 1,
            PlayerName::Opponent => 2,
        }
    }
}

impl FromSpecImpl<PlayerName> for i32 {
    open spec fn obeys_from_spec() -> bool {
        true
    }

    open spec fn from_spec(value: PlayerName) -> i32 {
        value.spec_value()
    }
}

/// Wire enumeration `RoomIdentifier` of the client protocol.
#[derive(Clone, Copy, Debug, PartialEq, Eq, Structural, Hash, PartialOrd, Ord)]
pub enum RoomIdentifier {
    Unspecified,
    Vault,
    Sanctum,
    Crypts,
    RoomA,
    RoomB,
    RoomC,
    RoomD,
    RoomE,
}

impl RoomIdentifier {
    /// The field name of this value in the protocol definition.
    pub open spec fn spec_name(self) -> Seq<char> {
        match self {
            RoomIdentifier::Unspecified => "ROOM_IDENTIFIER_UNSPECIFIED"@,
            RoomIdentifier::Vault => "ROOM_IDENTIFIER_VAULT"@,
            RoomIdentifier::Sanctum => "ROOM_IDENTIFIER_SANCTUM"@,
            RoomIdentifier::Crypts => "ROOM_IDENTIFIER_CRYPTS"@,
            RoomIdentifier::RoomA => "ROOM_IDENTIFIER_ROOM_A"@,
            RoomIdentifier::RoomB => "ROOM_IDENTIFIER_ROOM_B"@,
            RoomIdentifier::RoomC => "ROOM_IDENTIFIER_ROOM_C"@,
            RoomIdentifier::RoomD => "ROOM_IDENTIFIER_ROOM_D"@,
            RoomIdentifier::RoomE => "ROOM_IDENTIFIER_ROOM_E"@,
        }
    }

    /// The value decoded from a protocol field name, if it names one.
    pub open spec fn spec_from_name(name: Seq<char>) -> Option<RoomIdentifier> {
        if name == "ROOM_IDENTIFIER_UNSPECIFIED"@ {
            Some(RoomIdentifier::Unspecified)
        } else if name == "ROOM_IDENTIFIER_VAULT"@ {
            Some(RoomIdentifier::Vault)
        } else if name == "ROOM_IDENTIFIER_SANCTUM"@ {
            Some(RoomIdentifier::Sanctum)
        } else if name == "ROOM_IDENTIFIER_CRYPTS"@ {
            Some(RoomIdentifier::Crypts)
        } else if name == "ROOM_IDENTIFIER_ROOM_A"@ {
            Some(RoomIdentifier::RoomA)
        } else if name == "ROOM_IDENTIFIER_ROOM_B"@ {
            Some(RoomIdentifier::RoomB)
        } else if name == "ROOM_IDENTIFIER_ROOM_C"@ {
            Some(RoomIdentifier::RoomC)
        } else if name == "ROOM_IDENTIFIER_ROOM_D"@ {
            Some(RoomIdentifier::RoomD)
        } else if name == "ROOM_IDENTIFIER_ROOM_E"@ {
            Some(RoomIdentifier::RoomE)
        } else {
            None
        }
    }

    /// The number by which this value is encoded on the wire.
    pub open spec fn spec_value(self) -> i32 {
        match self {
            RoomIdentifier::Unspecified => 0,
            RoomIdentifier::Vault => 1,
            RoomIdentifier::Sanctum => 2,
            RoomIdentifier::Crypts => 3,
            RoomIdentifier::RoomA => 4,
            RoomIdentifier::RoomB => 5,
            RoomIdentifier::RoomC => 6,
            RoomIdentifier::RoomD => 7,
            RoomIdentifier::RoomE => 8,
        }
    }

    /// The value encoded on the wire by `value`, if any.
    pub open spec fn spec_from_i32(value: i32) -> Option<RoomIdentifier> {
        if value == 0 {
            Some(RoomIdentifier::Unspecified)
        } else if value == 1 {
            Some(RoomIdentifier::Vault)
        } else if value == 2 {
            Some(RoomIdentifier::Sanctum)
        } else if value == 3 {
            Some(RoomIdentifier::Crypts)
        } else if value == 4 {
            Some(RoomIdentifier::RoomA)
        } else if value == 5 {
            Some(RoomIdentifier::RoomB)
        } else if value == 6 {
            Some(RoomIdentifier::RoomC)
        } else if value == 7 {
            Some(RoomIdentifier::RoomD)
        } else if value == 8 {
            Some(RoomIdentifier::RoomE)
        } else {
            None
        }
    }

    /// String value of the enum field names used in the protocol definition.
    pub fn as_str_name(&self) -> (name: &'static str)
        ensures
            name@ == self.spec_name(),
    {
        match self {
            RoomIdentifier::Unspecified => "ROOM_IDENTIFIER_UNSPECIFIED",
            RoomIdentifier::Vault => "ROOM_IDENTIFIER_VAULT",
            RoomIdentifier::Sanctum => "ROOM_IDENTIFIER_SANCTUM",
            RoomIdentifier::Crypts => "ROOM_IDENTIFIER_CRYPTS",
            RoomIdentifier::RoomA => "ROOM_IDENTIFIER_ROOM_A",
            RoomIdentifier::RoomB => "ROOM_IDENTIFIER_ROOM_B",
            RoomIdentifier::RoomC => "ROOM_IDENTIFIER_ROOM_C",
            RoomIdentifier::RoomD => "ROOM_IDENTIFIER_ROOM_D",
            RoomIdentifier::RoomE => "ROOM_IDENTIFIER_ROOM_E",
        }
    }

    /// Creates a value from a field name used in the protocol definition.
    pub fn from_str_name(value: &str) -> (res: Option<RoomIdentifier>)
        ensures
            res == RoomIdentifier::spec_from_name(value@),
    {
        if str_eq(value, "ROOM_IDENTIFIER_UNSPECIFIED") {
            Some(RoomIdentifier::Unspecified)
        } else if str_eq(value, "ROOM_IDENTIFIER_VAULT") {
            Some(RoomIdentifier::Vault)
        } else if str_eq(value, "ROOM_IDENTIFIER_SANCTUM") {
            Some(RoomIdentifier::Sanctum)
        } else if str_eq(value, "ROOM_IDENTIFIER_CRYPTS") {
            Some(RoomIdentifier::Crypts)
        } else if str_eq(value, "ROOM_IDENTIFIER_ROOM_A") {
            Some(RoomIdentifier::RoomA)
        } else if str_eq(value, "ROOM_IDENTIFIER_ROOM_B") {
            Some(RoomIdentifier::RoomB)
        } else if str_eq(value, "ROOM_IDENTIFIER_ROOM_C") {
            Some(RoomIdentifier::RoomC)
        } else if str_eq(value, "ROOM_IDENTIFIER_ROOM_D") {
            Some(RoomIdentifier::RoomD)
        } else if str_eq(value, "ROOM_IDENTIFIER_ROOM_E") {
            Some(RoomIdentifier::RoomE)
        } else {
            None
        }
    }

    /// Decodes a wire number, returning `None` for numbers that name no value.
    pub fn from_i32(value: i32) -> (res: Option<RoomIdentifier>)
        ensures
            res == RoomIdentifier::spec_from_i32(value),
    {
        match value {
            0 => Some(RoomIdentifier::Unspecified),
            1 => Some(RoomIdentifier::Vault),
            2 => Some(RoomIdentifier::Sanctum),
            3 => Some(RoomIdentifier::Crypts),
            4 => Some(RoomIdentifier::RoomA),
            5 => Some(RoomIdentifier::RoomB),
            6 => Some(RoomIdentifier::RoomC),
            7 => Some(RoomIdentifier::RoomD),
            8 => Some(RoomIdentifier::RoomE),
            _ => None,
        }
    }

    /// Whether `value` is the wire number of some value.
    pub fn is_valid(value: i32) -> (res: bool)
        ensures
            res == RoomIdentifier::spec_from_i32(value).is_some(),
    {
        RoomIdentifier::from_i32(value).is_some()
    }

    /// A value's field name and wire number each decode back to that value,
    /// and no other field name or number decodes to it.
    pub proof fn lemma_round_trip(self)
        ensures
            RoomIdentifier::spec_from_name(self.spec_name()) == Some(self),
            RoomIdentifier::spec_from_i32(self.spec_value()) == Some(self),
            forall|name: Seq<char>|
                #[trigger] RoomIdentifier::spec_from_name(name) == Some(self) ==> name == self.spec_name(),
            forall|value: i32|
                #[trigger] RoomIdentifier::spec_from_i32(value) == Some(self) ==> value == self.spec_value(),
    {
        reveal_strlit("ROOM_IDENTIFIER_UNSPECIFIED");
        reveal_strlit("ROOM_IDENTIFIER_VAULT");
        reveal_strlit("ROOM_IDENTIFIER_SANCTUM");
        reveal_strlit("ROOM_IDENTIFIER_CRYPTS");
        reveal_strlit("ROOM_IDENTIFIER_ROOM_A");
        reveal_strlit("ROOM_IDENTIFIER_ROOM_B");
        reveal_strlit("ROOM_IDENTIFIER_ROOM_C");
        reveal_strlit("ROOM_IDENTIFIER_ROOM_D");
        reveal_strlit("ROOM_IDENTIFIER_ROOM_E");
        assert("ROOM_IDENTIFIER_UNSPECIFIED"@.len() == 27);
        assert("ROOM_IDENTIFIER_VAULT"@.len() == 21);
        assert("ROOM_IDENTIFIER_SANCTUM"@.len() == 23);
        assert("ROOM_IDENTIFIER_CRYPTS"@.len() == 22);
        assert("ROOM_IDENTIFIER_ROOM_A"@.len() == 22);
        assert("ROOM_IDENTIFIER_ROOM_B"@.len() == 22);
        assert("ROOM_IDENTIFIER_ROOM_C"@.len() == 22);
        assert("ROOM_IDENTIFIER_ROOM_D"@.len() == 22);
        assert("ROOM_IDENTIFIER_ROOM_E"@.len() == 22);
        assert("ROOM_IDENTIFIER_CRYPTS"@[16] != "ROOM_IDENTIFIER_ROOM_A"@[16]);
        assert("ROOM_IDENTIFIER_CRYPTS"@[16] != "ROOM_IDENTIFIER_ROOM_B"@[16]);
        assert("ROOM_IDENTIFIER_CRYPTS"@[16] != "ROOM_IDENTIFIER_ROOM_C"@[16]);
        assert("ROOM_IDENTIFIER_CRYPTS"@[16] != "ROOM_IDENTIFIER_ROOM_D"@[16]);
        assert("ROOM_IDENTIFIER_CRYPTS"@[16] != "ROOM_IDENTIFIER_ROOM_E"@[16]);
        assert("ROOM_IDENTIFIER_ROOM_A"@[21] != "ROOM_IDENTIFIER_ROOM_B"@[21]);
        assert("ROOM_IDENTIFIER_ROOM_A"@[21] != "ROOM_IDENTIFIER_ROOM_C"@[21]);
        assert("ROOM_IDENTIFIER_ROOM_A"@[21] != "ROOM_IDENTIFIER_ROOM_D"@[21]);
        assert("ROOM_IDENTIFIER_ROOM_A"@[21] != "ROOM_IDENTIFIER_ROOM_E"@[21]);
        assert("ROOM_IDENTIFIER_ROOM_B"@[21] != "ROOM_IDENTIFIER_ROOM_C"@[21]);
        assert("ROOM_IDENTIFIER_ROOM_B"@[21] != "ROOM_IDENTIFIER_ROOM_D"@[21]);
        assert("ROOM_IDENTIFIER_ROOM_B"@[21] != "ROOM_IDENTIFIER_ROOM_E"@[21]);
        assert("ROOM_IDENTIFIER_ROOM_C"@[21] != "ROOM_IDENTIFIER_ROOM_D"@[21]);
        assert("ROOM_IDENTIFIER_ROOM_C"@[21] != "ROOM_IDENTIFIER_ROOM_E"@[21]);
        assert("ROOM_IDENTIFIER_ROOM_D"@[21] != "ROOM_IDENTIFIER_ROOM_E"@[21]);
        match self {
            RoomIdentifier::Unspecified => {},
            RoomIdentifier::Vault => {},
            RoomIdentifier::Sanctum => {},
            RoomIdentifier::Crypts => {},
            RoomIdentifier::RoomA => {},
            RoomIdentifier::RoomB => {},
            RoomIdentifier::RoomC => {},
            RoomIdentifier::RoomD => {},
            RoomIdentifier::RoomE => {},
        }
    }
}

impl Default for RoomIdentifier {
    /// The value with wire number zero.
    fn default() -> (res: RoomIdentifier)
        ensures
            res == RoomIdentifier::Unspecified,
    {
        RoomIdentifier::Unspecified
    }
}

impl From<RoomIdentifier> for i32 {
    fn from(value: RoomIdentifier) -> (res: i32) {
        match value {
            RoomIdentifier::Unspecified => 0,
            RoomIdentifier::Vault => 1,
            RoomIdentifier::Sanctum => 2,
            RoomIdentifier::Crypts => 3,
            RoomIdentifier::RoomA => 4,
            RoomIdentifier::RoomB => 5,
            RoomIdentifier::RoomC => 6,
            RoomIdentifier::RoomD => 7,
            RoomIdentifier::RoomE => 8,
        }
    }
}

impl FromSpecImpl<RoomIdentifier> for i32 {
    open spec fn obeys_from_spec() -> bool {
        true
    }

    open spec fn from_spec(value: RoomIdentifier) -> i32 {
        value.spec_value()
    }
}

/// Wire enumeration `TargetingArrow` of the client protocol.
#[derive(Clone, Copy, Debug, PartialEq, Eq, Structural, Hash, PartialOrd, Ord)]
pub enum TargetingArrow {
    Unspecified,
    Red,
    Blue,
    Green,
}

impl TargetingArrow {
    /// The field name of this value in the protocol definition.
    pub open spec fn spec_name(self) -> Seq<char> {
        match self {
            TargetingArrow::Unspecified => "TARGETING_ARROW_UNSPECIFIED"@,
            TargetingArrow::Red => "TARGETING_ARROW_RED"@,
            TargetingArrow::Blue => "TARGETING_ARROW_BLUE"@,
            TargetingArrow::Green => "TARGETING_ARROW_GREEN"@,
        }
    }

    /// The value decoded from a protocol field name, if it names one.
    pub open spec fn spec_from_name(name: Seq<char>) -> Option<TargetingArrow> {
        if name == "TARGETING_ARROW_UNSPECIFIED"@ {
            Some(TargetingArrow::Unspecified)
        } else if name == "TARGETING_ARROW_RED"@ {
            Some(TargetingArrow::Red)
        } else if name == "TARGETING_ARROW_BLUE"@ {
            Some(TargetingArrow::Blue)
        } else if name == "TARGETING_ARROW_GREEN"@ {
            Some(TargetingArrow::Green)
        } else {
            None
        }
    }

    /// The number by which this value is encoded on the wire.
    pub open spec fn spec_value(self) -> i32 {
        match self {
            TargetingArrow::Unspecified => 0,
            TargetingArrow::Red => 1,
            TargetingArrow::Blue => 2,
            TargetingArrow::Green => 3,
        }
    }

    /// The value encoded on the wire by `value`, if any.
    pub open spec fn spec_from_i32(value: i32) -> Option<TargetingArrow> {
        if value == 0 {
            Some(TargetingArrow::Unspecified)
        } else if value == 1 {
            Some(TargetingArrow::Red)
        } else if value == 2 {
            Some(TargetingArrow::Blue)
        } else if value == 3 {
            Some(TargetingArrow::Green)
        } else {
            None
        }
    }

    /// String value of the enum field names used in the protocol definition.
    pub fn as_str_name(&self) -> (name: &'static str)
        ensures
            name@ == self.spec_name(),
    {
        match self {
            TargetingArrow::Unspecified => "TARGETING_ARROW_UNSPECIFIED",
            TargetingArrow::Red => "TARGETING_ARROW_RED",
            TargetingArrow::Blue => "TARGETING_ARROW_BLUE",
            TargetingArrow::Green => "TARGETING_ARROW_GREEN",
        }
    }

    /// Creates a value from a field name used in the protocol definition.
    pub fn from_str_name(value: &str) -> (res: Option<TargetingArrow>)
        ensures
            res == TargetingArrow::spec_from_name(value@),
    {
        if str_eq(value, "TARGETING_ARROW_UNSPECIFIED") {
            Some(TargetingArrow::Unspecified)
        } else if str_eq(value, "TARGETING_ARROW_RED") {
            Some(TargetingArrow::Red)
        } else if str_eq(value, "TARGETING_ARROW_BLUE") {
            Some(TargetingArrow::Blue)
        } else if str_eq(value, "TARGETING_ARROW_GREEN") {
            Some(TargetingArrow::Green)
        } else {
            None
        }
    }

    /// Decodes a wire number, returning `None` for numbers that name no value.
    pub fn from_i32(value: i32) -> (res: Option<TargetingArrow>)
        ensures
            res == TargetingArrow::spec_from_i32(value),
    {
        match value {
            0 => Some(TargetingArrow::Unspecified),
            1 => Some(TargetingArrow::Red),
            2 => Some(TargetingArrow::Blue),
            3 => Some(TargetingArrow::Green),
            _ => None,
        }
    }

    /// Whether `value` is the wire number of some value.
    pub fn is_valid(value: i32) -> (res: bool)
        ensures
            res == TargetingArrow::spec_from_i32(value).is_some(),
    {
        TargetingArrow::from_i32(value).is_some()
    }

    /// A value's field name and wire number each decode back to that value,
    /// and no other field name or number decodes to it.
    pub proof fn lemma_round_trip(self)
        ensures
            TargetingArrow::spec_from_name(self.spec_name()) == Some(self),
            TargetingArrow::spec_from_i32(self.spec_value()) == Some(self),
            forall|name: Seq<char>|
                #[trigger] TargetingArrow::spec_from_name(name) == Some(self) ==> name == self.spec_name(),
            forall|value: i32|
                #[trigger] TargetingArrow::spec_from_i32(value) == Some(self) ==> value == self.spec_value(),
    {
        reveal_strlit("TARGETING_ARROW_UNSPECIFIED");
        reveal_strlit("TARGETING_ARROW_RED");
        reveal_strlit("TARGETING_ARROW_BLUE");
        reveal_strlit("TARGETING_ARROW_GREEN");
        assert("TARGETING_ARROW_UNSPECIFIED"@.len() == 27);
        assert("TARGETING_ARROW_RED"@.len() == 19);
        assert("TARGETING_ARROW_BLUE"@.len() == 20);
        assert("TARGETING_ARROW_GREEN"@.len() == 21);
        match self {
            TargetingArrow::Unspecified => {},
            TargetingArrow::Red => {},
            TargetingArrow::Blue => {},
            TargetingArrow::Green => {},
        }
    }
}

impl Default for TargetingArrow {
    /// The value with wire number zero.
    fn default() -> (res: TargetingArrow)
        ensures
            res == TargetingArrow::Unspecified,
    {
        TargetingArrow::Unspecified
    }
}

impl From<TargetingArrow> for i32 {
    fn from(value: TargetingArrow) -> (res: i32) {
        match value {
            TargetingArrow::Unspecified => 0,
            TargetingArrow::Red => 1,
            TargetingArrow::Blue => 2,
            TargetingArrow::Green => 3,
        }
    }
}

impl FromSpecImpl<TargetingArrow> for i32 {
    open spec fn obeys_from_spec() -> bool {
        true
    }

    open spec fn from_spec(value: TargetingArrow) -> i32 {
        value.spec_value()
    }
}

/// Wire enumeration `ClientRoomLocation` of the client protocol.
#[derive(Clone, Copy, Debug, PartialEq, Eq, Structural, Hash, PartialOrd, Ord)]
pub enum ClientRoomLocation {
    Unspecified,
    Back,
    Front,
}

impl ClientRoomLocation {
    /// The field name of this value in the protocol definition.
    pub open spec fn spec_name(self) -> Seq<char> {
        match self {
            ClientRoomLocation::Unspecified => "CLIENT_ROOM_LOCATION_UNSPECIFIED"@,
            ClientRoomLocation::Back => "CLIENT_ROOM_LOCATION_BACK"@,
            ClientRoomLocation::Front => "CLIENT_ROOM_LOCATION_FRONT"@,
        }
    }

    /// The value decoded from a protocol field name, if it names one.
    pub open spec fn spec_from_name(name: Seq<char>) -> Option<ClientRoomLocation> {
        if name == "CLIENT_ROOM_LOCATION_UNSPECIFIED"@ {
            Some(ClientRoomLocation::Unspecified)
        } else if name == "CLIENT_ROOM_LOCATION_BACK"@ {
            Some(ClientRoomLocation::Back)
        } else if name == "CLIENT_ROOM_LOCATION_FRONT"@ {
            Some(ClientRoomLocation::Front)
        } else {
            None
        }
    }

    /// The number by which this value is encoded on the wire.
    pub open spec fn spec_value(self) -> i32 {
        match self {
            ClientRoomLocation::Unspecified => 0,
            ClientRoomLocation::Back => 1,
            ClientRoomLocation::Front => 2,
        }
    }

    /// The value encoded on the wire by `value`, if any.
    pub open spec fn spec_from_i32(value: i32) -> Option<ClientRoomLocation> {
        if value == 0 {
            Some(ClientRoomLocation::Unspecified)
        } else if value == 1 {
            Some(ClientRoomLocation::Back)
        } else if value == 2 {
            Some(ClientRoomLocation::Front)
        } else {
            None
        }
    }

    /// String value of the enum field names used in the protocol definition.
    pub fn as_str_name(&self) -> (name: &'static str)
        ensures
            name@ == self.spec_name(),
    {
        match self {
            ClientRoomLocation::Unspecified => "CLIENT_ROOM_LOCATION_UNSPECIFIED",
            ClientRoomLocation::Back => "CLIENT_ROOM_LOCATION_BACK",
            ClientRoomLocation::Front => "CLIENT_ROOM_LOCATION_FRONT",
        }
    }

    /// Creates a value from a field name used in the protocol definition.
    pub fn from_str_name(value: &str) -> (res: Option<ClientRoomLocation>)
        ensures
            res == ClientRoomLocation::spec_from_name(value@),
    {
        if str_eq(value, "CLIENT_ROOM_LOCATION_UNSPECIFIED") {
            Some(ClientRoomLocation::Unspecified)
        } else if str_eq(value, "CLIENT_ROOM_LOCATION_BACK") {
            Some(ClientRoomLocation::Back)
        } else if str_eq(value, "CLIENT_ROOM_LOCATION_FRONT") {
            Some(ClientRoomLocation::Front)
        } else {
            None
        }
    }

    /// Decodes a wire number, returning `None` for numbers that name no value.
    pub fn from_i32(value: i32) -> (res: Option<ClientRoomLocation>)
        ensures
            res == ClientRoomLocation::spec_from_i32(value),
    {
        match value {
            0 => Some(ClientRoomLocation::Unspecified),
            1 => Some(ClientRoomLocation::Back),
            2 => Some(ClientRoomLocation::Front),
            _ => None,
        }
    }

    /// Whether `value` is the wire number of some value.
    pub fn is_valid(value: i32) -> (res: bool)
        ensures
            res == ClientRoomLocation::spec_from_i32(value).is_some(),
    {
        ClientRoomLocation::from_i32(value).is_some()
    }

    /// A value's field name and wire number each decode back to that value,
    /// and no other field name or number decodes to it.
    pub proof fn lemma_round_trip(self)
        ensures
            ClientRoomLocation::spec_from_name(self.spec_name()) == Some(self),
            ClientRoomLocation::spec_from_i32(self.spec_value()) == Some(self),
            forall|name: Seq<char>|
                #[trigger] ClientRoomLocation::spec_from_name(name) == Some(self) ==> name == self.spec_name(),
            forall|value: i32|
                #[trigger] ClientRoomLocation::spec_from_i32(value) == Some(self) ==> value == self.spec_value(),
    {
        reveal_strlit("CLIENT_ROOM_LOCATION_UNSPECIFIED");
        reveal_strlit("CLIENT_ROOM_LOCATION_BACK");
        reveal_strlit("CLIENT_ROOM_LOCATION_FRONT");
        assert("CLIENT_ROOM_LOCATION_UNSPECIFIED"@.len() == 32);
        assert("CLIENT_ROOM_LOCATION_BACK"@.len() == 25);
        assert("CLIENT_ROOM_LOCATION_FRONT"@.len() == 26);
        match self {
            ClientRoomLocation::Unspecified => {},
            ClientRoomLocation::Back => {},
            ClientRoomLocation::Front => {},
        }
    }
}

impl Default for ClientRoomLocation {
    /// The value with wire number zero.
    fn default() -> (res: ClientRoomLocation)
        ensures
            res == ClientRoomLocation::Unspecified,
    {
        ClientRoomLocation::Unspecified
    }
}

impl From<ClientRoomLocation> for i32 {
    fn from(value: ClientRoomLocation) -> (res: i32) {
        match value {
            ClientRoomLocation::Unspecified => 0,
            ClientRoomLocation::Back => 1,
            ClientRoomLocation::Front => 2,
        }
    }
}

impl FromSpecImpl<ClientRoomLocation> for i32 {
    open spec fn obeys_from_spec() -> bool {
        true
    }

    open spec fn from_spec(value: ClientRoomLocation) -> i32 {
        value.spec_value()
    }
}

/// Wire enumeration `ClientItemLocation` of the client protocol.
#[derive(Clone, Copy, Debug, PartialEq, Eq, Structural, Hash, PartialOrd, Ord)]
pub enum ClientItemLocation {
    Unspecified,
    Left,
    Right,
}

impl ClientItemLocation {
    /// The field name of this value in the protocol definition.
    pub open spec fn spec_name(self) -> Seq<char> {
        match self {
            ClientItemLocation::Unspecified => "CLIENT_ITEM_LOCATION_UNSPECIFIED"@,
            ClientItemLocation::Left => "CLIENT_ITEM_LOCATION_LEFT"@,
            ClientItemLocation::Right => "CLIENT_ITEM_LOCATION_RIGHT"@,
        }
    }

    /// The value decoded from a protocol field name, if it names one.
    pub open spec fn spec_from_name(name: Seq<char>) -> Option<ClientItemLocation> {
        if name == "CLIENT_ITEM_LOCATION_UNSPECIFIED"@ {
            Some(ClientItemLocation::Unspecified)
        } else if name == "CLIENT_ITEM_LOCATION_LEFT"@ {
            Some(ClientItemLocation::Left)
        } else if name == "CLIENT_ITEM_LOCATION_RIGHT"@ {
            Some(ClientItemLocation::Right)
        } else {
            None
        }
    }

    /// The number by which this value is encoded on the wire.
    pub open spec fn spec_value(self) -> i32 {
        match self {
            ClientItemLocation::Unspecified => 0,
            ClientItemLocation::Left => 1,
            ClientItemLocation::Right => 2,
        }
    }

    /// The value encoded on the wire by `value`, if any.
    pub open spec fn spec_from_i32(value: i32) -> Option<ClientItemLocation> {
        if value == 0 {
            Some(ClientItemLocation::Unspecified)
        } else if value == 1 {
            Some(ClientItemLocation::Left)
        } else if value == 2 {
            Some(ClientItemLocation::Right)
        } else {
            None
        }
    }

    /// String value of the enum field names used in the protocol definition.
    pub fn as_str_name(&self) -> (name: &'static str)
        ensures
            name@ == self.spec_name(),
    {
        match self {
            ClientItemLocation::Unspecified => "CLIENT_ITEM_LOCATION_UNSPECIFIED",
            ClientItemLocation::Left => "CLIENT_ITEM_LOCATION_LEFT",
            ClientItemLocation::Right => "CLIENT_ITEM_LOCATION_RIGHT",
        }
    }

    /// Creates a value from a field name used in the protocol definition.
    pub fn from_str_name(value: &str) -> (res: Option<ClientItemLocation>)
        ensures
            res == ClientItemLocation::spec_from_name(value@),
    {
        if str_eq(value, "CLIENT_ITEM_LOCATION_UNSPECIFIED") {
            Some(ClientItemLocation::Unspecified)
        } else if str_eq(value, "CLIENT_ITEM_LOCATION_LEFT") {
            Some(ClientItemLocation::Left)
        } else if str_eq(value, "CLIENT_ITEM_LOCATION_RIGHT") {
            Some(ClientItemLocation::Right)
        } else {
            None
        }
    }

    /// Decodes a wire number, returning `None` for numbers that name no value.
    pub fn from_i32(value: i32) -> (res: Option<ClientItemLocation>)
        ensures
            res == ClientItemLocation::spec_from_i32(value),
    {
        match value {
            0 => Some(ClientItemLocation::Unspecified),
            1 => Some(ClientItemLocation::Left),
            2 => Some(ClientItemLocation::Right),
            _ => None,
        }
    }

    /// Whether `value` is the wire number of some value.
    pub fn is_valid(value: i32) -> (res: bool)
        ensures
            res == ClientItemLocation::spec_from_i32(value).is_some(),
    {
        ClientItemLocation::from_i32(value).is_some()
    }

    /// A value's field name and wire number each decode back to that value,
    /// and no other field name or number decodes to it.
    pub proof fn lemma_round_trip(self)
        ensures
            ClientItemLocation::spec_from_name(self.spec_name()) == Some(self),
            ClientItemLocation::spec_from_i32(self.spec_value()) == Some(self),
            forall|name: Seq<char>|
                #[trigger] ClientItemLocation::spec_from_name(name) == Some(self) ==> name == self.spec_name(),
            forall|value: i32|
                #[trigger] ClientItemLocation::spec_from_i32(value) == Some(self) ==> value == self.spec_value(),
    {
        reveal_strlit("CLIENT_ITEM_LOCATION_UNSPECIFIED");
        reveal_strlit("CLIENT_ITEM_LOCATION_LEFT");
        reveal_strlit("CLIENT_ITEM_LOCATION_RIGHT");
        assert("CLIENT_ITEM_LOCATION_UNSPECIFIED"@.len() == 32);
        assert("CLIENT_ITEM_LOCATION_LEFT"@.len() == 25);
        assert("CLIENT_ITEM_LOCATION_RIGHT"@.len() == 26);
        match self {
            ClientItemLocation::Unspecified => {},
            ClientItemLocation::Left => {},
            ClientItemLocation::Right => {},
        }
    }
}

impl Default for ClientItemLocation {
    /// The value with wire number zero.
    fn default() -> (res: ClientItemLocation)
        ensures
            res == ClientItemLocation::Unspecified,
    {
        ClientItemLocation::Unspecified
    }
}

impl From<ClientItemLocation> for i32 {
    fn from(value: ClientItemLocation) -> (res: i32) {
        match value {
            ClientItemLocation::Unspecified => 0,
            ClientItemLocation::Left => 1,
            ClientItemLocation::Right => 2,
        }
    }
}

impl FromSpecImpl<ClientItemLocation> for i32 {
    open spec fn obeys_from_spec() -> bool {
        true
    }

    open spec fn from_spec(value: ClientItemLocation) -> i32 {
        value.spec_value()
    }
}

/// Wire enumeration `RevealedCardsBrowserSize` of the client protocol.
#[derive(Clone, Copy, Debug, PartialEq, Eq, Structural, Hash, PartialOrd, Ord)]
pub enum RevealedCardsBrowserSize {
    Unspecified,
    Small,
    Large,
}

impl RevealedCardsBrowserSize {
    /// The field name of this value in the protocol definition.
    pub open spec fn spec_name(self) -> Seq<char> {
        match self {
            RevealedCardsBrowserSize::Unspecified => "REVEALED_CARDS_BROWSER_SIZE_UNSPECIFIED"@,
            RevealedCardsBrowserSize::Small => "REVEALED_CARDS_BROWSER_SIZE_SMALL"@,
            RevealedCardsBrowserSize::Large => "REVEALED_CARDS_BROWSER_SIZE_LARGE"@,
        }
    }

    /// The value decoded from a protocol field name, if it names one.
    pub open spec fn spec_from_name(name: Seq<char>) -> Option<RevealedCardsBrowserSize> {
        if name == "REVEALED_CARDS_BROWSER_SIZE_UNSPECIFIED"@ {
            Some(RevealedCardsBrowserSize::Unspecified)
        } else if name == "REVEALED_CARDS_BROWSER_SIZE_SMALL"@ {
            Some(RevealedCardsBrowserSize::Small)
        } else if name == "REVEALED_CARDS_BROWSER_SIZE_LARGE"@ {
            Some(RevealedCardsBrowserSize::Large)
        } else {
            None
        }
    }

    /// The number by which this value is encoded on the wire.
    pub open spec fn spec_value(self) -> i32 {
        match self {
            RevealedCardsBrowserSize::Unspecified => 0,
            RevealedCardsBrowserSize::Small => 1,
            RevealedCardsBrowserSize::Large => 2,
        }
    }

    /// The value encoded on the wire by `value`, if any.
    pub open spec fn spec_from_i32(value: i32) -> Option<RevealedCardsBrowserSize> {
        if value == 0 {
            Some(RevealedCardsBrowserSize::Unspecified)
        } else if value == 1 {
            Some(RevealedCardsBrowserSize::Small)
        } else if value == 2 {
            Some(RevealedCardsBrowserSize::Large)
        } else {
            None
        }
    }

    /// String value of the enum field names used in the protocol definition.
    pub fn as_str_name(&self) -> (name: &'static str)
        ensures
            name@ == self.spec_name(),
    {
        match self {
            RevealedCardsBrowserSize::Unspecified => "REVEALED_CARDS_BROWSER_SIZE_UNSPECIFIED",
            RevealedCardsBrowserSize::Small => "REVEALED_CARDS_BROWSER_SIZE_SMALL",
            RevealedCardsBrowserSize::Large => "REVEALED_CARDS_BROWSER_SIZE_LARGE",
        }
    }

    /// Creates a value from a field name used in the protocol definition.
    pub fn from_str_name(value: &str) -> (res: Option<RevealedCardsBrowserSize>)
        ensures
            res == RevealedCardsBrowserSize::spec_from_name(value@),
    {
        if str_eq(value, "REVEALED_CARDS_BROWSER_SIZE_UNSPECIFIED") {
            Some(RevealedCardsBrowserSize::Unspecified)
        } else if str_eq(value, "REVEALED_CARDS_BROWSER_SIZE_SMALL") {
            Some(RevealedCardsBrowserSize::Small)
        } else if str_eq(value, "REVEALED_CARDS_BROWSER_SIZE_LARGE") {
            Some(RevealedCardsBrowserSize::Large)
        } else {
            None
        }
    }

    /// Decodes a wire number, returning `None` for numbers that name no value.
    pub fn from_i32(value: i32) -> (res: Option<RevealedCardsBrowserSize>)
        ensures
            res == RevealedCardsBrowserSize::spec_from_i32(value),
    {
        match value {
            0 => Some(RevealedCardsBrowserSize::Unspecified),
            1 => Some(RevealedCardsBrowserSize::Small),
            2 => Some(RevealedCardsBrowserSize::Large),
            _ => None,
        }
    }

    /// Whether `value` is the wire number of some value.
    pub fn is_valid(value: i32) -> (res: bool)
        ensures
            res == RevealedCardsBrowserSize::spec_from_i32(value).is_some(),
    {
        RevealedCardsBrowserSize::from_i32(value).is_some()
    }

    /// A value's field name and wire number each decode back to that value,
    /// and no other field name or number decodes to it.
    pub proof fn lemma_round_trip(self)
        ensures
            RevealedCardsBrowserSize::spec_from_name(self.spec_name()) == Some(self),
            RevealedCardsBrowserSize::spec_from_i32(self.spec_value()) == Some(self),
            forall|name: Seq<char>|
                #[trigger] RevealedCardsBrowserSize::spec_from_name(name) == Some(self) ==> name == self.spec_name(),
            forall|value: i32|
                #[trigger] RevealedCardsBrowserSize::spec_from_i32(value) == Some(self) ==> value == self.spec_value(),
    {
        reveal_strlit("REVEALED_CARDS_BROWSER_SIZE_UNSPECIFIED");
        reveal_strlit("REVEALED_CARDS_BROWSER_SIZE_SMALL");
        reveal_strlit("REVEALED_CARDS_BROWSER_SIZE_LARGE");
        assert("REVEALED_CARDS_BROWSER_SIZE_UNSPECIFIED"@.len() == 39);
        assert("REVEALED_CARDS_BROWSER_SIZE_SMALL"@.len() == 33);
        assert("REVEALED_CARDS_BROWSER_SIZE_LARGE"@.len() == 33);
        assert("REVEALED_CARDS_BROWSER_SIZE_SMALL"@[28] != "REVEALED_CARDS_BROWSER_SIZE_LARGE"@[28]);
        match self {
            RevealedCardsBrowserSize::Unspecified => {},
            RevealedCardsBrowserSize::Small => {},
            RevealedCardsBrowserSize::Large => {},
        }
    }
}

impl Default for RevealedCardsBrowserSize {
    /// The value with wire number zero.
    fn default() -> (res: RevealedCardsBrowserSize)
        ensures
            res == RevealedCardsBrowserSize::Unspecified,
    {
        RevealedCardsBrowserSize::Unspecified
    }
}

impl From<RevealedCardsBrowserSize> for i32 {
    fn from(value: RevealedCardsBrowserSize) -> (res: i32) {
        match value {
            RevealedCardsBrowserSize::Unspecified => 0,
            RevealedCardsBrowserSize::Small => 1,
            RevealedCardsBrowserSize::Large => 2,
        }
    }
}

impl FromSpecImpl<RevealedCardsBrowserSize> for i32 {
    open spec fn obeys_from_spec() -> bool {
        true
    }

    open spec fn from_spec(value: RevealedCardsBrowserSize) -> i32 {
        value.spec_value()
    }
}

/// Wire enumeration `CardPrefab` of the client protocol.
#[derive(Clone, Copy, Debug, PartialEq, Eq, Structural, Hash, PartialOrd, Ord)]
pub enum CardPrefab {
    Unspecified,
    Standard,
    TokenCard,
    FullHeight,
    FullHeightToken,
}

impl CardPrefab {
    /// The field name of this value in the protocol definition.
    pub open spec fn spec_name(self) -> Seq<char> {
        match self {
            CardPrefab::Unspecified => "CARD_PREFAB_UNSPECIFIED"@,
            CardPrefab::Standard => "CARD_PREFAB_STANDARD"@,
            CardPrefab::TokenCard => "CARD_PREFAB_TOKEN_CARD"@,
            CardPrefab::FullHeight => "CARD_PREFAB_FULL_HEIGHT"@,
            CardPrefab::FullHeightToken => "CARD_PREFAB_FULL_HEIGHT_TOKEN"@,
        }
    }

    /// The value decoded from a protocol field name, if it names one.
    pub open spec fn spec_from_name(name: Seq<char>) -> Option<CardPrefab> {
        if name == "CARD_PREFAB_UNSPECIFIED"@ {
            Some(CardPrefab::Unspecified)
        } else if name == "CARD_PREFAB_STANDARD"@ {
            Some(CardPrefab::Standard)
        } else if name == "CARD_PREFAB_TOKEN_CARD"@ {
            Some(CardPrefab::TokenCard)
        } else if name == "CARD_PREFAB_FULL_HEIGHT"@ {
            Some(CardPrefab::FullHeight)
        } else if name == "CARD_PREFAB_FULL_HEIGHT_TOKEN"@ {
            Some(CardPrefab::FullHeightToken)
        } else {
            None
        }
    }

    /// The number by which this value is encoded on the wire.
    pub open spec fn spec_value(self) -> i32 {
        match self {
            CardPrefab::Unspecified => 0,
            CardPrefab::Standard => 1,
            CardPrefab::TokenCard => 2,
            CardPrefab::FullHeight => 3,
            CardPrefab::FullHeightToken => 4,
        }
    }

    /// The value encoded on the wire by `value`, if any.
    pub open spec fn spec_from_i32(value: i32) -> Option<CardPrefab> {
        if value == 0 {
            Some(CardPrefab::Unspecified)
        } else if value == 1 {
            Some(CardPrefab::Standard)
        } else if value == 2 {
            Some(CardPrefab::TokenCard)
        } else if value == 3 {
            Some(CardPrefab::FullHeight)
        } else if value == 4 {
            Some(CardPrefab::FullHeightToken)
        } else {
            None
        }
    }

    /// String value of the enum field names used in the protocol definition.
    pub fn as_str_name(&self) -> (name: &'static str)
        ensures
            name@ == self.spec_name(),
    {
        match self {
            CardPrefab::Unspecified => "CARD_PREFAB_UNSPECIFIED",
            CardPrefab::Standard => "CARD_PREFAB_STANDARD",
            CardPrefab::TokenCard => "CARD_PREFAB_TOKEN_CARD",
            CardPrefab::FullHeight => "CARD_PREFAB_FULL_HEIGHT",
            CardPrefab::FullHeightToken => "CARD_PREFAB_FULL_HEIGHT_TOKEN",
        }
    }

    /// Creates a value from a field name used in the protocol definition.
    pub fn from_str_name(value: &str) -> (res: Option<CardPrefab>)
        ensures
            res == CardPrefab::spec_from_name(value@),
    {
        if str_eq(value, "CARD_PREFAB_UNSPECIFIED") {
            Some(CardPrefab::Unspecified)
        } else if str_eq(value, "CARD_PREFAB_STANDARD") {
            Some(CardPrefab::Standard)
        } else if str_eq(value, "CARD_PREFAB_TOKEN_CARD") {
            Some(CardPrefab::TokenCard)
        } else if str_eq(value, "CARD_PREFAB_FULL_HEIGHT") {
            Some(CardPrefab::FullHeight)
        } else if str_eq(value, "CARD_PREFAB_FULL_HEIGHT_TOKEN") {
            Some(CardPrefab::FullHeightToken)
        } else {
            None
        }
    }

    /// Decodes a wire number, returning `None` for numbers that name no value.
    pub fn from_i32(value: i32) -> (res: Option<CardPrefab>)
        ensures
            res == CardPrefab::spec_from_i32(value),
    {
        match value {
            0 => Some(CardPrefab::Unspecified),
            1 => Some(CardPrefab::Standard),
            2 => Some(CardPrefab::TokenCard),
            3 => Some(CardPrefab::FullHeight),
            4 => Some(CardPrefab::FullHeightToken),
            _ => None,
        }
    }

    /// Whether `value` is the wire number of some value.
    pub fn is_valid(value: i32) -> (res: bool)
        ensures
            res == CardPrefab::spec_from_i32(value).is_some(),
    {
        CardPrefab::from_i32(value).is_some()
    }

    /// A value's field name and wire number each decode back to that value,
    /// and no other field name or number decodes to it.
    pub proof fn lemma_round_trip(self)
        ensures
            CardPrefab::spec_from_name(self.spec_name()) == Some(self),
            CardPrefab::spec_from_i32(self.spec_value()) == Some(self),
            forall|name: Seq<char>|
                #[trigger] CardPrefab::spec_from_name(name) == Some(self) ==> name == self.spec_name(),
            forall|value: i32|
                #[trigger] CardPrefab::spec_from_i32(value) == Some(self) ==> value == self.spec_value(),
    {
        reveal_strlit("CARD_PREFAB_UNSPECIFIED");
        reveal_strlit("CARD_PREFAB_STANDARD");
        reveal_strlit("CARD_PREFAB_TOKEN_CARD");
        reveal_strlit("CARD_PREFAB_FULL_HEIGHT");
        reveal_strlit("CARD_PREFAB_FULL_HEIGHT_TOKEN");
        assert("CARD_PREFAB_UNSPECIFIED"@.len() == 23);
        assert("CARD_PREFAB_STANDARD"@.len() == 20);
        assert("CARD_PREFAB_TOKEN_CARD"@.len() == 22);
        assert("CARD_PREFAB_FULL_HEIGHT"@.len() == 23);
        assert("CARD_PREFAB_FULL_HEIGHT_TOKEN"@.len() == 29);
        assert("CARD_PREFAB_UNSPECIFIED"@[12] != "CARD_PREFAB_FULL_HEIGHT"@[12]);
        match self {
            CardPrefab::Unspecified => {},
            CardPrefab::Standard => {},
            CardPrefab::TokenCard => {},
            CardPrefab::FullHeight => {},
            CardPrefab::FullHeightToken => {},
        }
    }
}

impl Default for CardPrefab {
    /// The value with wire number zero.
    fn default() -> (res: CardPrefab)
        ensures
            res == CardPrefab::Unspecified,
    {
        CardPrefab::Unspecified
    }
}

impl From<CardPrefab> for i32 {
    fn from(value: CardPrefab) -> (res: i32) {
        match value {
            CardPrefab::Unspecified => 0,
            CardPrefab::Standard => 1,
            CardPrefab::TokenCard => 2,
            CardPrefab::FullHeight => 3,
            CardPrefab::FullHeightToken => 4,
        }
    }
}

impl FromSpecImpl<CardPrefab> for i32 {
    open spec fn obeys_from_spec() -> bool {
        true
    }

    open spec fn from_spec(value: CardPrefab) -> i32 {
        value.spec_value()
    }
}

/// Wire enumeration `GameCharacterFacingDirection` of the client protocol.
#[derive(Clone, Copy, Debug, PartialEq, Eq, Structural, Hash, PartialOrd, Ord)]
pub enum GameCharacterFacingDirection {
    Unspecified,
    Up,
    Down,
    Left,
    Right,
}

impl GameCharacterFacingDirection {
    /// The field name of this value in the protocol definition.
    pub open spec fn spec_name(self) -> Seq<char> {
        match self {
            GameCharacterFacingDirection::Unspecified => "GAME_CHARACTER_FACING_DIRECTION_UNSPECIFIED"@,
            GameCharacterFacingDirection::Up => "GAME_CHARACTER_FACING_DIRECTION_UP"@,
            GameCharacterFacingDirection::Down => "GAME_CHARACTER_FACING_DIRECTION_DOWN"@,
            GameCharacterFacingDirection::Left => "GAME_CHARACTER_FACING_DIRECTION_LEFT"@,
            GameCharacterFacingDirection::Right => "GAME_CHARACTER_FACING_DIRECTION_RIGHT"@,
        }
    }

    /// The value decoded from a protocol field name, if it names one.
    pub open spec fn spec_from_name(name: Seq<char>) -> Option<GameCharacterFacingDirection> {
        if name == "GAME_CHARACTER_FACING_DIRECTION_UNSPECIFIED"@ {
            Some(GameCharacterFacingDirection::Unspecified)
        } else if name == "GAME_CHARACTER_FACING_DIRECTION_UP"@ {
            Some(GameCharacterFacingDirection::Up)
        } else if name == "GAME_CHARACTER_FACING_DIRECTION_DOWN"@ {
            Some(GameCharacterFacingDirection::Down)
        } else if name == "GAME_CHARACTER_FACING_DIRECTION_LEFT"@ {
            Some(GameCharacterFacingDirection::Left)
        } else if name == "GAME_CHARACTER_FACING_DIRECTION_RIGHT"@ {
            Some(GameCharacterFacingDirection::Right)
        } else {
            None
        }
    }

    /// The number by which this value is encoded on the wire.
    pub open spec fn spec_value(self) -> i32 {
        match self {
            GameCharacterFacingDirection::Unspecified => 0,
            GameCharacterFacingDirection::Up => 1,
            GameCharacterFacingDirection::Down => 2,
            GameCharacterFacingDirection::Left => 3,
            GameCharacterFacingDirection::Right => 4,
        }
    }

    /// The value encoded on the wire by `value`, if any.
    pub open spec fn spec_from_i32(value: i32) -> Option<GameCharacterFacingDirection> {
        if value == 0 {
            Some(GameCharacterFacingDirection::Unspecified)
        } else if value == 1 {
            Some(GameCharacterFacingDirection::Up)
        } else if value == 2 {
            Some(GameCharacterFacingDirection::Down)
        } else if value == 3 {
            Some(GameCharacterFacingDirection::Left)
        } else if value == 4 {
            Some(GameCharacterFacingDirection::Right)
        } else {
            None
        }
    }

    /// String value of the enum field names used in the protocol definition.
    pub fn as_str_name(&self) -> (name: &'static str)
        ensures
            name@ == self.spec_name(),
    {
        match self {
            GameCharacterFacingDirection::Unspecified => "GAME_CHARACTER_FACING_DIRECTION_UNSPECIFIED",
            GameCharacterFacingDirection::Up => "GAME_CHARACTER_FACING_DIRECTION_UP",
            GameCharacterFacingDirection::Down => "GAME_CHARACTER_FACING_DIRECTION_DOWN",
            GameCharacterFacingDirection::Left => "GAME_CHARACTER_FACING_DIRECTION_LEFT",
            GameCharacterFacingDirection::Right => "GAME_CHARACTER_FACING_DIRECTION_RIGHT",
        }
    }

    /// Creates a value from a field name used in the protocol definition.
    pub fn from_str_name(value: &str) -> (res: Option<GameCharacterFacingDirection>)
        ensures
            res == GameCharacterFacingDirection::spec_from_name(value@),
    {
        if str_eq(value, "GAME_CHARACTER_FACING_DIRECTION_UNSPECIFIED") {
            Some(GameCharacterFacingDirection::Unspecified)
        } else if str_eq(value, "GAME_CHARACTER_FACING_DIRECTION_UP") {
            Some(GameCharacterFacingDirection::Up)
        } else if str_eq(value, "GAME_CHARACTER_FACING_DIRECTION_DOWN") {
            Some(GameCharacterFacingDirection::Down)
        } else if str_eq(value, "GAME_CHARACTER_FACING_DIRECTION_LEFT") {
            Some(GameCharacterFacingDirection::Left)
        } else if str_eq(value, "GAME_CHARACTER_FACING_DIRECTION_RIGHT") {
            Some(GameCharacterFacingDirection::Right)
        } else {
            None
        }
    }

    /// Decodes a wire number, returning `None` for numbers that name no value.
    pub fn from_i32(value: i32) -> (res: Option<GameCharacterFacingDirection>)
        ensures
            res == GameCharacterFacingDirection::spec_from_i32(value),
    {
        match value {
            0 => Some(GameCharacterFacingDirection::Unspecified),
            1 => Some(GameCharacterFacingDirection::Up),
            2 => Some(GameCharacterFacingDirection::Down),
            3 => Some(GameCharacterFacingDirection::Left),
            4 => Some(GameCharacterFacingDirection::Right),
            _ => None,
        }
    }

    /// Whether `value` is the wire number of some value.
    pub fn is_valid(value: i32) -> (res: bool)
        ensures
            res == GameCharacterFacingDirection::spec_from_i32(value).is_some(),
    {
        GameCharacterFacingDirection::from_i32(value).is_some()
    }

    /// A value's field name and wire number each decode back to that value,
    /// and no other field name or number decodes to it.
    pub proof fn lemma_round_trip(self)
        ensures
            GameCharacterFacingDirection::spec_from_name(self.spec_name()) == Some(self),
            GameCharacterFacingDirection::spec_from_i32(self.spec_value()) == Some(self),
            forall|name: Seq<char>|
                #[trigger] GameCharacterFacingDirection::spec_from_name(name) == Some(self) ==> name == self.spec_name(),
            forall|value: i32|
                #[trigger] GameCharacterFacingDirection::spec_from_i32(value) == Some(self) ==> value == self.spec_value(),
    {
        reveal_strlit("GAME_CHARACTER_FACING_DIRECTION_UNSPECIFIED");
        reveal_strlit("GAME_CHARACTER_FACING_DIRECTION_UP");
        reveal_strlit("GAME_CHARACTER_FACING_DIRECTION_DOWN");
        reveal_strlit("GAME_CHARACTER_FACING_DIRECTION_LEFT");
        reveal_strlit("GAME_CHARACTER_FACING_DIRECTION_RIGHT");
        assert("GAME_CHARACTER_FACING_DIRECTION_UNSPECIFIED"@.len() == 43);
        assert("GAME_CHARACTER_FACING_DIRECTION_UP"@.len() == 34);
        assert("GAME_CHARACTER_FACING_DIRECTION_DOWN"@.len() == 36);
        assert("GAME_CHARACTER_FACING_DIRECTION_LEFT"@.len() == 36);
        assert("GAME_CHARACTER_FACING_DIRECTION_RIGHT"@.len() == 37);
        assert("GAME_CHARACTER_FACING_DIRECTION_DOWN"@[32] != "GAME_CHARACTER_FACING_DIRECTION_LEFT"@[32]);
        match self {
            GameCharacterFacingDirection::Unspecified => {},
            GameCharacterFacingDirection::Up => {},
            GameCharacterFacingDirection::Down => {},
            GameCharacterFacingDirection::Left => {},
            GameCharacterFacingDirection::Right => {},
        }
    }
}

impl Default for GameCharacterFacingDirection {
    /// The value with wire number zero.
    fn default() -> (res: GameCharacterFacingDirection)
        ensures
            res == GameCharacterFacingDirection::Unspecified,
    {
        GameCharacterFacingDirection::Unspecified
    }
}

impl From<GameCharacterFacingDirection> for i32 {
    fn from(value: GameCharacterFacingDirection) -> (res: i32) {
        match value {
            GameCharacterFacingDirection::Unspecified => 0,
            GameCharacterFacingDirection::Up => 1,
            GameCharacterFacingDirection::Down => 2,
            GameCharacterFacingDirection::Left => 3,
            GameCharacterFacingDirection::Right => 4,
        }
    }
}

impl FromSpecImpl<GameCharacterFacingDirection> for i32 {
    open spec fn obeys_from_spec() -> bool {
        true
    }

    open spec fn from_spec(value: GameCharacterFacingDirection) -> i32 {
        value.spec_value()
    }
}

/// Wire enumeration `ArrowBubbleCorner` of the client protocol.
#[derive(Clone, Copy, Debug, PartialEq, Eq, Structural, Hash, PartialOrd, Ord)]
pub enum ArrowBubbleCorner {
    Unspecified,
    BottomLeft,
    BottomRight,
}

impl ArrowBubbleCorner {
    /// The field name of this value in the protocol definition.
    pub open spec fn spec_name(self) -> Seq<char> {
        match self {
            ArrowBubbleCorner::Unspecified => "ARROW_BUBBLE_CORNER_UNSPECIFIED"@,
            ArrowBubbleCorner::BottomLeft => "ARROW_BUBBLE_CORNER_BOTTOM_LEFT"@,
            ArrowBubbleCorner::BottomRight => "ARROW_BUBBLE_CORNER_BOTTOM_RIGHT"@,
        }
    }

    /// The value decoded from a protocol field name, if it names one.
    pub open spec fn spec_from_name(name: Seq<char>) -> Option<ArrowBubbleCorner> {
        if name == "ARROW_BUBBLE_CORNER_UNSPECIFIED"@ {
            Some(ArrowBubbleCorner::Unspecified)
        } else if name == "ARROW_BUBBLE_CORNER_BOTTOM_LEFT"@ {
            Some(ArrowBubbleCorner::BottomLeft)
        } else if name == "ARROW_BUBBLE_CORNER_BOTTOM_RIGHT"@ {
            Some(ArrowBubbleCorner::BottomRight)
        } else {
            None
        }
    }

    /// The number by which this value is encoded on the wire.
    pub open spec fn spec_value(self) -> i32 {
        match self {
            ArrowBubbleCorner::Unspecified => 0,
            ArrowBubbleCorner::BottomLeft => 1,
            ArrowBubbleCorner::BottomRight => 2,
        }
    }

    /// The value encoded on the wire by `value`, if any.
    pub open spec fn spec_from_i32(value: i32) -> Option<ArrowBubbleCorner> {
        if value == 0 {
            Some(ArrowBubbleCorner::Unspecified)
        } else if value == 1 {
            Some(ArrowBubbleCorner::BottomLeft)
        } else if value == 2 {
            Some(ArrowBubbleCorner::BottomRight)
        } else {
            None
        }
    }

    /// String value of the enum field names used in the protocol definition.
    pub fn as_str_name(&self) -> (name: &'static str)
        ensures
            name@ == self.spec_name(),
    {
        match self {
            ArrowBubbleCorner::Unspecified => "ARROW_BUBBLE_CORNER_UNSPECIFIED",
            ArrowBubbleCorner::BottomLeft => "ARROW_BUBBLE_CORNER_BOTTOM_LEFT",
            ArrowBubbleCorner::BottomRight => "ARROW_BUBBLE_CORNER_BOTTOM_RIGHT",
        }
    }

    /// Creates a value from a field name used in the protocol definition.
    pub fn from_str_name(value: &str) -> (res: Option<ArrowBubbleCorner>)
        ensures
            res == ArrowBubbleCorner::spec_from_name(value@),
    {
        if str_eq(value, "ARROW_BUBBLE_CORNER_UNSPECIFIED") {
            Some(ArrowBubbleCorner::Unspecified)
        } else if str_eq(value, "ARROW_BUBBLE_CORNER_BOTTOM_LEFT") {
            Some(ArrowBubbleCorner::BottomLeft)
        } else if str_eq(value, "ARROW_BUBBLE_CORNER_BOTTOM_RIGHT") {
            Some(ArrowBubbleCorner::BottomRight)
        } else {
            None
        }
    }

    /// Decodes a wire number, returning `None` for numbers that name no value.
    pub fn from_i32(value: i32) -> (res: Option<ArrowBubbleCorner>)
        ensures
            res == ArrowBubbleCorner::spec_from_i32(value),
    {
        match value {
            0 => Some(ArrowBubbleCorner::Unspecified),
            1 => Some(ArrowBubbleCorner::BottomLeft),
            2 => Some(ArrowBubbleCorner::BottomRight),
            _ => None,
        }
    }

    /// Whether `value` is the wire number of some value.
    pub fn is_valid(value: i32) -> (res: bool)
        ensures
            res == ArrowBubbleCorner::spec_from_i32(value).is_some(),
    {
        ArrowBubbleCorner::from_i32(value).is_some()
    }

    /// A value's field name and wire number each decode back to that value,
    /// and no other field name or number decodes to it.
    pub proof fn lemma_round_trip(self)
        ensures
            ArrowBubbleCorner::spec_from_name(self.spec_name()) == Some(self),
            ArrowBubbleCorner::spec_from_i32(self.spec_value()) == Some(self),
            forall|name: Seq<char>|
                #[trigger] ArrowBubbleCorner::spec_from_name(name) == Some(self) ==> name == self.spec_name(),
            forall|value: i32|
                #[trigger] ArrowBubbleCorner::spec_from_i32(value) == Some(self) ==> value == self.spec_value(),
    {
        reveal_strlit("ARROW_BUBBLE_CORNER_UNSPECIFIED");
        reveal_strlit("ARROW_BUBBLE_CORNER_BOTTOM_LEFT");
        reveal_strlit("ARROW_BUBBLE_CORNER_BOTTOM_RIGHT");
        assert("ARROW_BUBBLE_CORNER_UNSPECIFIED"@.len() == 31);
        assert("ARROW_BUBBLE_CORNER_BOTTOM_LEFT"@.len() == 31);
        assert("ARROW_BUBBLE_CORNER_BOTTOM_RIGHT"@.len() == 32);
        assert("ARROW_BUBBLE_CORNER_UNSPECIFIED"@[20] != "ARROW_BUBBLE_CORNER_BOTTOM_LEFT"@[20]);
        match self {
            ArrowBubbleCorner::Unspecified => {},
            ArrowBubbleCorner::BottomLeft => {},
            ArrowBubbleCorner::BottomRight => {},
        }
    }
}

impl Default for ArrowBubbleCorner {
    /// The value with wire number zero.
    fn default() -> (res: ArrowBubbleCorner)
        ensures
            res == ArrowBubbleCorner::Unspecified,
    {
        ArrowBubbleCorner::Unspecified
    }
}

impl From<ArrowBubbleCorner> for i32 {
    fn from(value: ArrowBubbleCorner) -> (res: i32) {
        match value {
            ArrowBubbleCorner::Unspecified => 0,
            ArrowBubbleCorner::BottomLeft => 1,
            ArrowBubbleCorner::BottomRight => 2,
        }
    }
}

impl FromSpecImpl<ArrowBubbleCorner> for i32 {
    open spec fn obeys_from_spec() -> bool {
        true
    }

    open spec fn from_spec(value: ArrowBubbleCorner) -> i32 {
        value.spec_value()
    }
}

/// Possible corners which can be anchored.
#[derive(Clone, Copy, Debug, PartialEq, Eq, Structural, Hash, PartialOrd, Ord)]
pub enum AnchorCorner {
    Unspecified,
    TopLeft,
    TopRight,
    BottomLeft,
    BottomRight,
}

impl AnchorCorner {
    /// The field name of this value in the protocol definition.
    pub open spec fn spec_name(self) -> Seq<char> {
        match self {
            AnchorCorner::Unspecified => "ANCHOR_CORNER_UNSPECIFIED"@,
            AnchorCorner::TopLeft => "ANCHOR_CORNER_TOP_LEFT"@,
            AnchorCorner::TopRight => "ANCHOR_CORNER_TOP_RIGHT"@,
            AnchorCorner::BottomLeft => "ANCHOR_CORNER_BOTTOM_LEFT"@,
            AnchorCorner::BottomRight => "ANCHOR_CORNER_BOTTOM_RIGHT"@,
        }
    }

    /// The value decoded from a protocol field name, if it names one.
    pub open spec fn spec_from_name(name: Seq<char>) -> Option<AnchorCorner> {
        if name == "ANCHOR_CORNER_UNSPECIFIED"@ {
            Some(AnchorCorner::Unspecified)
        } else if name == "ANCHOR_CORNER_TOP_LEFT"@ {
            Some(AnchorCorner::TopLeft)
        } else if name == "ANCHOR_CORNER_TOP_RIGHT"@ {
            Some(AnchorCorner::TopRight)
        } else if name == "ANCHOR_CORNER_BOTTOM_LEFT"@ {
            Some(AnchorCorner::BottomLeft)
        } else if name == "ANCHOR_CORNER_BOTTOM_RIGHT"@ {
            Some(AnchorCorner::BottomRight)
        } else {
            None
        }
    }

    /// The number by which this value is encoded on the wire.
    pub open spec fn spec_value(self) -> i32 {
        match self {
            AnchorCorner::Unspecified => 0,
            AnchorCorner::TopLeft => 1,
            AnchorCorner::TopRight => 2,
            AnchorCorner::BottomLeft => 3,
            AnchorCorner::BottomRight => 4,
        }
    }

    /// The value encoded on the wire by `value`, if any.
    pub open spec fn spec_from_i32(value: i32) -> Option<AnchorCorner> {
        if value == 0 {
            Some(AnchorCorner::Unspecified)
        } else if value == 1 {
            Some(AnchorCorner::TopLeft)
        } else if value == 2 {
            Some(AnchorCorner::TopRight)
        } else if value == 3 {
            Some(AnchorCorner::BottomLeft)
        } else if value == 4 {
            Some(AnchorCorner::BottomRight)
        } else {
            None
        }
    }

    /// String value of the enum field names used in the protocol definition.
    pub fn as_str_name(&self) -> (name: &'static str)
        ensures
            name@ == self.spec_name(),
    {
        match self {
            AnchorCorner::Unspecified => "ANCHOR_CORNER_UNSPECIFIED",
            AnchorCorner::TopLeft => "ANCHOR_CORNER_TOP_LEFT",
            AnchorCorner::TopRight => "ANCHOR_CORNER_TOP_RIGHT",
            AnchorCorner::BottomLeft => "ANCHOR_CORNER_BOTTOM_LEFT",
            AnchorCorner::BottomRight => "ANCHOR_CORNER_BOTTOM_RIGHT",
        }
    }

    /// Creates a value from a field name used in the protocol definition.
    pub fn from_str_name(value: &str) -> (res: Option<AnchorCorner>)
        ensures
            res == AnchorCorner::spec_from_name(value@),
    {
        if str_eq(value, "ANCHOR_CORNER_UNSPECIFIED") {
            Some(AnchorCorner::Unspecified)
        } else if str_eq(value, "ANCHOR_CORNER_TOP_LEFT") {
            Some(AnchorCorner::TopLeft)
        } else if str_eq(value, "ANCHOR_CORNER_TOP_RIGHT") {
            Some(AnchorCorner::TopRight)
        } else if str_eq(value, "ANCHOR_CORNER_BOTTOM_LEFT") {
            Some(AnchorCorner::BottomLeft)
        } else if str_eq(value, "ANCHOR_CORNER_BOTTOM_RIGHT") {
            Some(AnchorCorner::BottomRight)
        } else {
            None
        }
    }

    /// Decodes a wire number, returning `None` for numbers that name no value.
    pub fn from_i32(value: i32) -> (res: Option<AnchorCorner>)
        ensures
            res == AnchorCorner::spec_from_i32(value),
    {
        match value {
            0 => Some(AnchorCorner::Unspecified),
            1 => Some(AnchorCorner::TopLeft),
            2 => Some(AnchorCorner::TopRight),
            3 => Some(AnchorCorner::BottomLeft),
            4 => Some(AnchorCorner::BottomRight),
            _ => None,
        }
    }

    /// Whether `value` is the wire number of some value.
    pub fn is_valid(value: i32) -> (res: bool)
        ensures
            res == AnchorCorner::spec_from_i32(value).is_some(),
    {
        AnchorCorner::from_i32(value).is_some()
    }

    /// A value's field name and wire number each decode back to that value,
    /// and no other field name or number decodes to it.
    pub proof fn lemma_round_trip(self)
        ensures
            AnchorCorner::spec_from_name(self.spec_name()) == Some(self),
            AnchorCorner::spec_from_i32(self.spec_value()) == Some(self),
            forall|name: Seq<char>|
                #[trigger] AnchorCorner::spec_from_name(name) == Some(self) ==> name == self.spec_name(),
            forall|value: i32|
                #[trigger] AnchorCorner::spec_from_i32(value) == Some(self) ==> value == self.spec_value(),
    {
        reveal_strlit("ANCHOR_CORNER_UNSPECIFIED");
        reveal_strlit("ANCHOR_CORNER_TOP_LEFT");
        reveal_strlit("ANCHOR_CORNER_TOP_RIGHT");
        reveal_strlit("ANCHOR_CORNER_BOTTOM_LEFT");
        reveal_strlit("ANCHOR_CORNER_BOTTOM_RIGHT");
        assert("ANCHOR_CORNER_UNSPECIFIED"@.len() == 25);
        assert("ANCHOR_CORNER_TOP_LEFT"@.len() == 22);
        assert("ANCHOR_CORNER_TOP_RIGHT"@.len() == 23);
        assert("ANCHOR_CORNER_BOTTOM_LEFT"@.len() == 25);
        assert("ANCHOR_CORNER_BOTTOM_RIGHT"@.len() == 26);
        assert("ANCHOR_CORNER_UNSPECIFIED"@[14] != "ANCHOR_CORNER_BOTTOM_LEFT"@[14]);
        match self {
            AnchorCorner::Unspecified => {},
            AnchorCorner::TopLeft => {},
            AnchorCorner::TopRight => {},
            AnchorCorner::BottomLeft => {},
            AnchorCorner::BottomRight => {},
        }
    }
}

impl Default for AnchorCorner {
    /// The value with wire number zero.
    fn default() -> (res: AnchorCorner)
        ensures
            res == AnchorCorner::Unspecified,
    {
        AnchorCorner::Unspecified
    }
}

impl From<AnchorCorner> for i32 {
    fn from(value: AnchorCorner) -> (res: i32) {
        match value {
            AnchorCorner::Unspecified => 0,
            AnchorCorner::TopLeft => 1,
            AnchorCorner::TopRight => 2,
            AnchorCorner::BottomLeft => 3,
            AnchorCorner::BottomRight => 4,
        }
    }
}

impl FromSpecImpl<AnchorCorner> for i32 {
    open spec fn obeys_from_spec() -> bool {
        true
    }

    open spec fn from_spec(value: AnchorCorner) -> i32 {
        value.spec_value()
    }
}

/// Wire enumeration `RoomVisitType` of the client protocol.
#[derive(Clone, Copy, Debug, PartialEq, Eq, Structural, Hash, PartialOrd, Ord)]
pub enum RoomVisitType {
    Unspecified,
    InitiateRaid,
    LevelUpRoom,
}

impl RoomVisitType {
    /// The field name of this value in the protocol definition.
    pub open spec fn spec_name(self) -> Seq<char> {
        match self {
            RoomVisitType::Unspecified => "ROOM_VISIT_TYPE_UNSPECIFIED"@,
            RoomVisitType::InitiateRaid => "ROOM_VISIT_TYPE_INITIATE_RAID"@,
            RoomVisitType::LevelUpRoom => "ROOM_VISIT_TYPE_LEVEL_UP_ROOM"@,
        }
    }

    /// The value decoded from a protocol field name, if it names one.
    pub open spec fn spec_from_name(name: Seq<char>) -> Option<RoomVisitType> {
        if name == "ROOM_VISIT_TYPE_UNSPECIFIED"@ {
            Some(RoomVisitType::Unspecified)
        } else if name == "ROOM_VISIT_TYPE_INITIATE_RAID"@ {
            Some(RoomVisitType::InitiateRaid)
        } else if name == "ROOM_VISIT_TYPE_LEVEL_UP_ROOM"@ {
            Some(RoomVisitType::LevelUpRoom)
        } else {
            None
        }
    }

    /// The number by which this value is encoded on the wire.
    pub open spec fn spec_value(self) -> i32 {
        match self {
            RoomVisitType::Unspecified => 0,
            RoomVisitType::InitiateRaid => 1,
            RoomVisitType::LevelUpRoom => 2,
        }
    }

    /// The value encoded on the wire by `value`, if any.
    pub open spec fn spec_from_i32(value: i32) -> Option<RoomVisitType> {
        if value == 0 {
            Some(RoomVisitType::Unspecified)
        } else if value == 1 {
            Some(RoomVisitType::InitiateRaid)
        } else if value == 2 {
            Some(RoomVisitType::LevelUpRoom)
        } else {
            None
        }
    }

    /// String value of the enum field names used in the protocol definition.
    pub fn as_str_name(&self) -> (name: &'static str)
        ensures
            name@ == self.spec_name(),
    {
        match self {
            RoomVisitType::Unspecified => "ROOM_VISIT_TYPE_UNSPECIFIED",
            RoomVisitType::InitiateRaid => "ROOM_VISIT_TYPE_INITIATE_RAID",
            RoomVisitType::LevelUpRoom => "ROOM_VISIT_TYPE_LEVEL_UP_ROOM",
        }
    }

    /// Creates a value from a field name used in the protocol definition.
    pub fn from_str_name(value: &str) -> (res: Option<RoomVisitType>)
        ensures
            res == RoomVisitType::spec_from_name(value@),
    {
        if str_eq(value, "ROOM_VISIT_TYPE_UNSPECIFIED") {
            Some(RoomVisitType::Unspecified)
        } else if str_eq(value, "ROOM_VISIT_TYPE_INITIATE_RAID") {
            Some(RoomVisitType::InitiateRaid)
        } else if str_eq(value, "ROOM_VISIT_TYPE_LEVEL_UP_ROOM") {
            Some(RoomVisitType::LevelUpRoom)
        } else {
            None
        }
    }

    /// Decodes a wire number, returning `None` for numbers that name no value.
    pub fn from_i32(value: i32) -> (res: Option<RoomVisitType>)
        ensures
            res == RoomVisitType::spec_from_i32(value),
    {
        match value {
            0 => Some(RoomVisitType::Unspecified),
            1 => Some(RoomVisitType::InitiateRaid),
            2 => Some(RoomVisitType::LevelUpRoom),
            _ => None,
        }
    }

    /// Whether `value` is the wire number of some value.
    pub fn is_valid(value: i32) -> (res: bool)
        ensures
            res == RoomVisitType::spec_from_i32(value).is_some(),
    {
        RoomVisitType::from_i32(value).is_some()
    }

    /// A value's field name and wire number each decode back to that value,
    /// and no other field name or number decodes to it.
    pub proof fn lemma_round_trip(self)
        ensures
            RoomVisitType::spec_from_name(self.spec_name()) == Some(self),
            RoomVisitType::spec_from_i32(self.spec_value()) == Some(self),
            forall|name: Seq<char>|
                #[trigger] RoomVisitType::spec_from_name(name) == Some(self) ==> name == self.spec_name(),
            forall|value: i32|
                #[trigger] RoomVisitType::spec_from_i32(value) == Some(self) ==> value == self.spec_value(),
    {
        reveal_strlit("ROOM_VISIT_TYPE_UNSPECIFIED");
        reveal_strlit("ROOM_VISIT_TYPE_INITIATE_RAID");
        reveal_strlit("ROOM_VISIT_TYPE_LEVEL_UP_ROOM");
        assert("ROOM_VISIT_TYPE_UNSPECIFIED"@.len() == 27);
        assert("ROOM_VISIT_TYPE_INITIATE_RAID"@.len() == 29);
        assert("ROOM_VISIT_TYPE_LEVEL_UP_ROOM"@.len() == 29);
        assert("ROOM_VISIT_TYPE_INITIATE_RAID"@[16] != "ROOM_VISIT_TYPE_LEVEL_UP_ROOM"@[16]);
        match self {
            RoomVisitType::Unspecified => {},
            RoomVisitType::InitiateRaid => {},
            RoomVisitType::LevelUpRoom => {},
        }
    }
}

impl Default for RoomVisitType {
    /// The value with wire number zero.
    fn default() -> (res: RoomVisitType)
        ensures
            res == RoomVisitType::Unspecified,
    {
        RoomVisitType::Unspecified
    }
}

impl From<RoomVisitType> for i32 {
    fn from(value: RoomVisitType) -> (res: i32) {
        match value {
            RoomVisitType::Unspecified => 0,
            RoomVisitType::InitiateRaid => 1,
            RoomVisitType::LevelUpRoom => 2,
        }
    }
}

impl FromSpecImpl<RoomVisitType> for i32 {
    open spec fn obeys_from_spec() -> bool {
        true
    }

    open spec fn from_spec(value: RoomVisitType) -> i32 {
        value.spec_value()
    }
}

/// Wire enumeration `CardCreationAnimation` of the client protocol.
#[derive(Clone, Copy, Debug, PartialEq, Eq, Structural, Hash, PartialOrd, Ord)]
pub enum CardCreationAnimation {
    Unspecified,
    /// Animates the card moving from the deck to the staging area.
    DrawCard,
    /// Animates the card moving from its parent card (indicated by its card
    /// identifier with no 'ability_id') to its create position.
    FromParentCard,
}

impl CardCreationAnimation {
    /// The field name of this value in the protocol definition.
    pub open spec fn spec_name(self) -> Seq<char> {
        match self {
            CardCreationAnimation::Unspecified => "CARD_CREATION_ANIMATION_UNSPECIFIED"@,
            CardCreationAnimation::DrawCard => "CARD_CREATION_ANIMATION_DRAW_CARD"@,
            CardCreationAnimation::FromParentCard => "CARD_CREATION_ANIMATION_FROM_PARENT_CARD"@,
        }
    }

    /// The value decoded from a protocol field name, if it names one.
    pub open spec fn spec_from_name(name: Seq<char>) -> Option<CardCreationAnimation> {
        if name == "CARD_CREATION_ANIMATION_UNSPECIFIED"@ {
            Some(CardCreationAnimation::Unspecified)
        } else if name == "CARD_CREATION_ANIMATION_DRAW_CARD"@ {
            Some(CardCreationAnimation::DrawCard)
        } else if name == "CARD_CREATION_ANIMATION_FROM_PARENT_CARD"@ {
            Some(CardCreationAnimation::FromParentCard)
        } else {
            None
        }
    }

    /// The number by which this value is encoded on the wire.
    pub open spec fn spec_value(self) -> i32 {
        match self {
            CardCreationAnimation::Unspecified => 0,
            CardCreationAnimation::DrawCard => 1,
            CardCreationAnimation::FromParentCard => 2,
        }
    }

    /// The value encoded on the wire by `value`, if any.
    pub open spec fn spec_from_i32(value: i32) -> Option<CardCreationAnimation> {
        if value == 0 {
            Some(CardCreationAnimation::Unspecified)
        } else if value == 1 {
            Some(CardCreationAnimation::DrawCard)
        } else if value == 2 {
            Some(CardCreationAnimation::FromParentCard)
        } else {
            None
        }
    }

    /// String value of the enum field names used in the protocol definition.
    pub fn as_str_name(&self) -> (name: &'static str)
        ensures
            name@ == self.spec_name(),
    {
        match self {
            CardCreationAnimation::Unspecified => "CARD_CREATION_ANIMATION_UNSPECIFIED",
            CardCreationAnimation::DrawCard => "CARD_CREATION_ANIMATION_DRAW_CARD",
            CardCreationAnimation::FromParentCard => "CARD_CREATION_ANIMATION_FROM_PARENT_CARD",
        }
    }

    /// Creates a value from a field name used in the protocol definition.
    pub fn from_str_name(value: &str) -> (res: Option<CardCreationAnimation>)
        ensures
            res == CardCreationAnimation::spec_from_name(value@),
    {
        if str_eq(value, "CARD_CREATION_ANIMATION_UNSPECIFIED") {
            Some(CardCreationAnimation::Unspecified)
        } else if str_eq(value, "CARD_CREATION_ANIMATION_DRAW_CARD") {
            Some(CardCreationAnimation::DrawCard)
        } else if str_eq(value, "CARD_CREATION_ANIMATION_FROM_PARENT_CARD") {
            Some(CardCreationAnimation::FromParentCard)
        } else {
            None
        }
    }

    /// Decodes a wire number, returning `None` for numbers that name no value.
    pub fn from_i32(value: i32) -> (res: Option<CardCreationAnimation>)
        ensures
            res == CardCreationAnimation::spec_from_i32(value),
    {
        match value {
            0 => Some(CardCreationAnimation::Unspecified),
            1 => Some(CardCreationAnimation::DrawCard),
            2 => Some(CardCreationAnimation::FromParentCard),
            _ => None,
        }
    }

    /// Whether `value` is the wire number of some value.
    pub fn is_valid(value: i32) -> (res: bool)
        ensures
            res == CardCreationAnimation::spec_from_i32(value).is_some(),
    {
        CardCreationAnimation::from_i32(value).is_some()
    }

    /// A value's field name and wire number each decode back to that value,
    /// and no other field name or number decodes to it.
    pub proof fn lemma_round_trip(self)
        ensures
            CardCreationAnimation::spec_from_name(self.spec_name()) == Some(self),
            CardCreationAnimation::spec_from_i32(self.spec_value()) == Some(self),
            forall|name: Seq<char>|
                #[trigger] CardCreationAnimation::spec_from_name(name) == Some(self) ==> name == self.spec_name(),
            forall|value: i32|
                #[trigger] CardCreationAnimation::spec_from_i32(value) == Some(self) ==> value == self.spec_value(),
    {
        reveal_strlit("CARD_CREATION_ANIMATION_UNSPECIFIED");
        reveal_strlit("CARD_CREATION_ANIMATION_DRAW_CARD");
        reveal_strlit("CARD_CREATION_ANIMATION_FROM_PARENT_CARD");
        assert("CARD_CREATION_ANIMATION_UNSPECIFIED"@.len() == 35);
        assert("CARD_CREATION_ANIMATION_DRAW_CARD"@.len() == 33);
        assert("CARD_CREATION_ANIMATION_FROM_PARENT_CARD"@.len() == 40);
        match self {
            CardCreationAnimation::Unspecified => {},
            CardCreationAnimation::DrawCard => {},
            CardCreationAnimation::FromParentCard => {},
        }
    }
}

impl Default for CardCreationAnimation {
    /// The value with wire number zero.
    fn default() -> (res: CardCreationAnimation)
        ensures
            res == CardCreationAnimation::Unspecified,
    {
        CardCreationAnimation::Unspecified
    }
}

impl From<CardCreationAnimation> for i32 {
    fn from(value: CardCreationAnimation) -> (res: i32) {
        match value {
            CardCreationAnimation::Unspecified => 0,
            CardCreationAnimation::DrawCard => 1,
            CardCreationAnimation::FromParentCard => 2,
        }
    }
}

impl FromSpecImpl<CardCreationAnimation> for i32 {
    open spec fn obeys_from_spec() -> bool {
        true
    }

    open spec fn from_spec(value: CardCreationAnimation) -> i32 {
        value.spec_value()
    }
}

} // verus!
