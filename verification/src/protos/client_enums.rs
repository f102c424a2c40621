//! Enumerations for music, messages, scenes, logging and the world map.
use vstd::prelude::*;
use vstd::std_specs::convert::FromSpecImpl;

use crate::text::str_eq;

verus! {

/// Wire enumeration `MusicState` of the client protocol.
#[derive(Clone, Copy, Debug, PartialEq, Eq, Structural, Hash, PartialOrd, Ord)]
pub enum MusicState {
    Unspecified,
    Silent,
    Gameplay,
    Raid,
    MainMenu,
}

impl MusicState {
    /// The field name of this value in the protocol definition.
    pub open spec fn spec_name(self) -> Seq<char> {
        match self {
            MusicState::Unspecified => "MUSIC_STATE_UNSPECIFIED"@,
            MusicState::Silent => "MUSIC_STATE_SILENT"@,
            MusicState::Gameplay => "MUSIC_STATE_GAMEPLAY"@,
            MusicState::Raid => "MUSIC_STATE_RAID"@,
            MusicState::MainMenu => "MUSIC_STATE_MAIN_MENU"@,
        }
    }

    /// The value decoded from a protocol field name, if it names one.
    pub open spec fn spec_from_name(name: Seq<char>) -> Option<MusicState> {
        if name == "MUSIC_STATE_UNSPECIFIED"@ {
            Some(MusicState::Unspecified)
        } else if name == "MUSIC_STATE_SILENT"@ {
            Some(MusicState::Silent)
        } else if name == "MUSIC_STATE_GAMEPLAY"@ {
            Some(MusicState::Gameplay)
        } else if name == "MUSIC_STATE_RAID"@ {
            Some(MusicState::Raid)
        } else if name == "MUSIC_STATE_MAIN_MENU"@ {
            Some(MusicState::MainMenu)
        } else {
            None
        }
    }

    /// The number by which this value is encoded on the wire.
    pub open spec fn spec_value(self) -> i32 {
        match self {
            MusicState::Unspecified => 0,
            MusicState::Silent => 1,
            MusicState::Gameplay => 2,
            MusicState::Raid => 3,
            MusicState::MainMenu => 4,
        }
    }

    /// The value encoded on the wire by `value`, if any.
    pub open spec fn spec_from_i32(value: i32) -> Option<MusicState> {
        if value == 0 {
            Some(MusicState::Unspecified)
        } else if value == 1 {
            Some(MusicState::Silent)
        } else if value == 2 {
            Some(MusicState::Gameplay)
        } else if value == 3 {
            Some(MusicState::Raid)
        } else if value == 4 {
            Some(MusicState::MainMenu)
        } else {
            None
        }
    }

    /// String value of the enum field names used in the protocol definition.
    pub fn as_str_name(&self) -> (name: &'static str)
        ensures
            name@ == self.spec_name(),
    {
        match self {
            MusicState::Unspecified => "MUSIC_STATE_UNSPECIFIED",
            MusicState::Silent => "MUSIC_STATE_SILENT",
            MusicState::Gameplay => "MUSIC_STATE_GAMEPLAY",
            MusicState::Raid => "MUSIC_STATE_RAID",
            MusicState::MainMenu => "MUSIC_STATE_MAIN_MENU",
        }
    }

    /// Creates a value from a field name used in the protocol definition.
    pub fn from_str_name(value: &str) -> (res: Option<MusicState>)
        ensures
            res == MusicState::spec_from_name(value@),
    {
        if str_eq(value, "MUSIC_STATE_UNSPECIFIED") {
            Some(MusicState::Unspecified)
        } else if str_eq(value, "MUSIC_STATE_SILENT") {
            Some(MusicState::Silent)
        } else if str_eq(value, "MUSIC_STATE_GAMEPLAY") {
            Some(MusicState::Gameplay)
        } else if str_eq(value, "MUSIC_STATE_RAID") {
            Some(MusicState::Raid)
        } else if str_eq(value, "MUSIC_STATE_MAIN_MENU") {
            Some(MusicState::MainMenu)
        } else {
            None
        }
    }

    /// Decodes a wire number, returning `None` for numbers that name no value.
    pub fn from_i32(value: i32) -> (res: Option<MusicState>)
        ensures
            res == MusicState::spec_from_i32(value),
    {
        match value {
            0 => Some(MusicState::Unspecified),
            1 => Some(MusicState::Silent),
            2 => Some(MusicState::Gameplay),
            3 => Some(MusicState::Raid),
            4 => Some(MusicState::MainMenu),
            _ => None,
        }
    }

    /// Whether `value` is the wire number of some value.
    pub fn is_valid(value: i32) -> (res: bool)
        ensures
            res == MusicState::spec_from_i32(value).is_some(),
    {
        MusicState::from_i32(value).is_some()
    }

    /// A value's field name and wire number each decode back to that value,
    /// and no other field name or number decodes to it.
    pub proof fn lemma_round_trip(self)
        ensures
            MusicState::spec_from_name(self.spec_name()) == Some(self),
            MusicState::spec_from_i32(self.spec_value()) == Some(self),
            forall|name: Seq<char>|
                #[trigger] MusicState::spec_from_name(name) == Some(self) ==> name == self.spec_name(),
            forall|value: i32|
                #[trigger] MusicState::spec_from_i32(value) == Some(self) ==> value == self.spec_value(),
    {
        reveal_strlit("MUSIC_STATE_UNSPECIFIED");
        reveal_strlit("MUSIC_STATE_SILENT");
        reveal_strlit("MUSIC_STATE_GAMEPLAY");
        reveal_strlit("MUSIC_STATE_RAID");
        reveal_strlit("MUSIC_STATE_MAIN_MENU");
        assert("MUSIC_STATE_UNSPECIFIED"@.len() == 23);
        assert("MUSIC_STATE_SILENT"@.len() == 18);
        assert("MUSIC_STATE_GAMEPLAY"@.len() == 20);
        assert("MUSIC_STATE_RAID"@.len() == 16);
        assert("MUSIC_STATE_MAIN_MENU"@.len() == 21);
        match self {
            MusicState::Unspecified => {},
            MusicState::Silent => {},
            MusicState::Gameplay => {},
            MusicState::Raid => {},
            MusicState::MainMenu => {},
        }
    }
}

impl Default for MusicState {
    /// The value with wire number zero.
    fn default() -> (res: MusicState)
        ensures
            res == MusicState::Unspecified,
    {
        MusicState::Unspecified
    }
}

impl From<MusicState> for i32 {
    fn from(value: MusicState) -> (res: i32) {
        match value {
            MusicState::Unspecified => 0,
            MusicState::Silent => 1,
            MusicState::Gameplay => 2,
            MusicState::Raid => 3,
            MusicState::MainMenu => 4,
        }
    }
}

impl FromSpecImpl<MusicState> for i32 {
    open spec fn obeys_from_spec() -> bool {
        true
    }

    open spec fn from_spec(value: MusicState) -> i32 {
        value.spec_value()
    }
}

/// Wire enumeration `GameMessageType` of the client protocol.
#[derive(Clone, Copy, Debug, PartialEq, Eq, Structural, Hash, PartialOrd, Ord)]
pub enum GameMessageType {
    Unspecified,
    Dawn,
    Dusk,
    Victory,
    Defeat,
}

impl GameMessageType {
    /// The field name of this value in the protocol definition.
    pub open spec fn spec_name(self) -> Seq<char> {
        match self {
            GameMessageType::Unspecified => "GAME_MESSAGE_TYPE_UNSPECIFIED"@,
            GameMessageType::Dawn => "GAME_MESSAGE_TYPE_DAWN"@,
            GameMessageType::Dusk => "GAME_MESSAGE_TYPE_DUSK"@,
            GameMessageType::Victory => "GAME_MESSAGE_TYPE_VICTORY"@,
            GameMessageType::Defeat => "GAME_MESSAGE_TYPE_DEFEAT"@,
        }
    }

    /// The value decoded from a protocol field name, if it names one.
    pub open spec fn spec_from_name(name: Seq<char>) -> Option<GameMessageType> {
        if name == "GAME_MESSAGE_TYPE_UNSPECIFIED"@ {
            Some(GameMessageType::Unspecified)
        } else if name == "GAME_MESSAGE_TYPE_DAWN"@ {
            Some(GameMessageType::Dawn)
        } else if name == "GAME_MESSAGE_TYPE_DUSK"@ {
            Some(GameMessageType::Dusk)
        } else if name == "GAME_MESSAGE_TYPE_VICTORY"@ {
            Some(GameMessageType::Victory)
        } else if name == "GAME_MESSAGE_TYPE_DEFEAT"@ {
            Some(GameMessageType::Defeat)
        } else {
            None
        }
    }

    /// The number by which this value is encoded on the wire.
    pub open spec fn spec_value(self) -> i32 {
        match self {
            GameMessageType::Unspecified => 0,
            GameMessageType::Dawn => 1,
            GameMessageType::Dusk => 2,
            GameMessageType::Victory => 3,
            GameMessageType::Defeat => 4,
        }
    }

    /// The value encoded on the wire by `value`, if any.
    pub open spec fn spec_from_i32(value: i32) -> Option<GameMessageType> {
        if value == 0 {
            Some(GameMessageType::Unspecified)
        } else if value == 1 {
            Some(GameMessageType::Dawn)
        } else if value == 2 {
            Some(GameMessageType::Dusk)
        } else if value == 3 {
            Some(GameMessageType::Victory)
        } else if value == 4 {
            Some(GameMessageType::Defeat)
        } else {
            None
        }
    }

    /// String value of the enum field names used in the protocol definition.
    pub fn as_str_name(&self) -> (name: &'static str)
        ensures
            name@ == self.spec_name(),
    {
        match self {
            GameMessageType::Unspecified => "GAME_MESSAGE_TYPE_UNSPECIFIED",
            GameMessageType::Dawn => "GAME_MESSAGE_TYPE_DAWN",
            GameMessageType::Dusk => "GAME_MESSAGE_TYPE_DUSK",
            GameMessageType::Victory => "GAME_MESSAGE_TYPE_VICTORY",
            GameMessageType::Defeat => "GAME_MESSAGE_TYPE_DEFEAT",
        }
    }

    /// Creates a value from a field name used in the protocol definition.
    pub fn from_str_name(value: &str) -> (res: Option<GameMessageType>)
        ensures
            res == GameMessageType::spec_from_name(value@),
    {
        if str_eq(value, "GAME_MESSAGE_TYPE_UNSPECIFIED") {
            Some(GameMessageType::Unspecified)
        } else if str_eq(value, "GAME_MESSAGE_TYPE_DAWN") {
            Some(GameMessageType::Dawn)
        } else if str_eq(value, "GAME_MESSAGE_TYPE_DUSK") {
            Some(GameMessageType::Dusk)
        } else if str_eq(value, "GAME_MESSAGE_TYPE_VICTORY") {
            Some(GameMessageType::Victory)
        } else if str_eq(value, "GAME_MESSAGE_TYPE_DEFEAT") {
            Some(GameMessageType::Defeat)
        } else {
            None
        }
    }

    /// Decodes a wire number, returning `None` for numbers that name no value.
    pub fn from_i32(value: i32) -> (res: Option<GameMessageType>)
        ensures
            res == GameMessageType::spec_from_i32(value),
    {
        match value {
            0 => Some(GameMessageType::Unspecified),
            1 => Some(GameMessageType::Dawn),
            2 => Some(GameMessageType::Dusk),
            3 => Some(GameMessageType::Victory),
            4 => Some(GameMessageType::Defeat),
            _ => None,
        }
    }

    /// Whether `value` is the wire number of some value.
    pub fn is_valid(value: i32) -> (res: bool)
        ensures
            res == GameMessageType::spec_from_i32(value).is_some(),
    {
        GameMessageType::from_i32(value).is_some()
    }

    /// A value's field name and wire number each decode back to that value,
    /// and no other field name or number decodes to it.
    pub proof fn lemma_round_trip(self)
        ensures
            GameMessageType::spec_from_name(self.spec_name()) == Some(self),
            GameMessageType::spec_from_i32(self.spec_value()) == Some(self),
            forall|name: Seq<char>|
                #[trigger] GameMessageType::spec_from_name(name) == Some(self) ==> name == self.spec_name(),
            forall|value: i32|
                #[trigger] GameMessageType::spec_from_i32(value) == Some(self) ==> value == self.spec_value(),
    {
        reveal_strlit("GAME_MESSAGE_TYPE_UNSPECIFIED");
        reveal_strlit("GAME_MESSAGE_TYPE_DAWN");
        reveal_strlit("GAME_MESSAGE_TYPE_DUSK");
        reveal_strlit("GAME_MESSAGE_TYPE_VICTORY");
        reveal_strlit("GAME_MESSAGE_TYPE_DEFEAT");
        assert("GAME_MESSAGE_TYPE_UNSPECIFIED"@.len() == 29);
        assert("GAME_MESSAGE_TYPE_DAWN"@.len() == 22);
        assert("GAME_MESSAGE_TYPE_DUSK"@.len() == 22);
        assert("GAME_MESSAGE_TYPE_VICTORY"@.len() == 25);
        assert("GAME_MESSAGE_TYPE_DEFEAT"@.len() == 24);
        assert("GAME_MESSAGE_TYPE_DAWN"@[19] != "GAME_MESSAGE_TYPE_DUSK"@[19]);
        match self {
            GameMessageType::Unspecified => {},
            GameMessageType::Dawn => {},
            GameMessageType::Dusk => {},
            GameMessageType::Victory => {},
            GameMessageType::Defeat => {},
        }
    }
}

impl Default for GameMessageType {
    /// The value with wire number zero.
    fn default() -> (res: GameMessageType)
        ensures
            res == GameMessageType::Unspecified,
    {
        GameMessageType::Unspecified
    }
}

impl From<GameMessageType> for i32 {
    fn from(value: GameMessageType) -> (res: i32) {
        match value {
            GameMessageType::Unspecified => 0,
            GameMessageType::Dawn => 1,
            GameMessageType::Dusk => 2,
            GameMessageType::Victory => 3,
            GameMessageType::Defeat => 4,
        }
    }
}

impl FromSpecImpl<GameMessageType> for i32 {
    open spec fn obeys_from_spec() -> bool {
        true
    }

    open spec fn from_spec(value: GameMessageType) -> i32 {
        value.spec_value()
    }
}

/// Wire enumeration `SceneLoadMode` of the client protocol.
#[derive(Clone, Copy, Debug, PartialEq, Eq, Structural, Hash, PartialOrd, Ord)]
pub enum SceneLoadMode {
    Unspecified,
    /// Close all currently open scenes before loading.
    Single,
    /// Adds a scene to the current loaded scenes.
    Additive,
}

impl SceneLoadMode {
    /// The field name of this value in the protocol definition.
    pub open spec fn spec_name(self) -> Seq<char> {
        match self {
            SceneLoadMode::Unspecified => "SCENE_LOAD_MODE_UNSPECIFIED"@,
            SceneLoadMode::Single => "SCENE_LOAD_MODE_SINGLE"@,
            SceneLoadMode::Additive => "SCENE_LOAD_MODE_ADDITIVE"@,
        }
    }

    /// The value decoded from a protocol field name, if it names one.
    pub open spec fn spec_from_name(name: Seq<char>) -> Option<SceneLoadMode> {
        if name == "SCENE_LOAD_MODE_UNSPECIFIED"@ {
            Some(SceneLoadMode::Unspecified)
        } else if name == "SCENE_LOAD_MODE_SINGLE"@ {
            Some(SceneLoadMode::Single)
        } else if name == "SCENE_LOAD_MODE_ADDITIVE"@ {
            Some(SceneLoadMode::Additive)
        } else {
            None
        }
    }

    /// The number by which this value is encoded on the wire.
    pub open spec fn spec_value(self) -> i32 {
        match self {
            SceneLoadMode::Unspecified => 0,
            SceneLoadMode::Single => 1,
            SceneLoadMode::Additive => 2,
        }
    }

    /// The value encoded on the wire by `value`, if any.
    pub open spec fn spec_from_i32(value: i32) -> Option<SceneLoadMode> {
        if value == 0 {
            Some(SceneLoadMode::Unspecified)
        } else if value == 1 {
            Some(SceneLoadMode::Single)
        } else if value == 2 {
            Some(SceneLoadMode::Additive)
        } else {
            None
        }
    }

    /// String value of the enum field names used in the protocol definition.
    pub fn as_str_name(&self) -> (name: &'static str)
        ensures
            name@ == self.spec_name(),
    {
        match self {
            SceneLoadMode::Unspecified => "SCENE_LOAD_MODE_UNSPECIFIED",
            SceneLoadMode::Single => "SCENE_LOAD_MODE_SINGLE",
            SceneLoadMode::Additive => "SCENE_LOAD_MODE_ADDITIVE",
        }
    }

    /// Creates a value from a field name used in the protocol definition.
    pub fn from_str_name(value: &str) -> (res: Option<SceneLoadMode>)
        ensures
            res == SceneLoadMode::spec_from_name(value@),
    {
        if str_eq(value, "SCENE_LOAD_MODE_UNSPECIFIED") {
            Some(SceneLoadMode::Unspecified)
        } else if str_eq(value, "SCENE_LOAD_MODE_SINGLE") {
            Some(SceneLoadMode::Single)
        } else if str_eq(value, "SCENE_LOAD_MODE_ADDITIVE") {
            Some(SceneLoadMode::Additive)
        } else {
            None
        }
    }

    /// Decodes a wire number, returning `None` for numbers that name no value.
    pub fn from_i32(value: i32) -> (res: Option<SceneLoadMode>)
        ensures
            res == SceneLoadMode::spec_from_i32(value),
    {
        match value {
            0 => Some(SceneLoadMode::Unspecified),
            1 => Some(SceneLoadMode::Single),
            2 => Some(SceneLoadMode::Additive),
            _ => None,
        }
    }

    /// Whether `value` is the wire number of some value.
    pub fn is_valid(value: i32) -> (res: bool)
        ensures
            res == SceneLoadMode::spec_from_i32(value).is_some(),
    {
        SceneLoadMode::from_i32(value).is_some()
    }

    /// A value's field name and wire number each decode back to that value,
    /// and no other field name or number decodes to it.
    pub proof fn lemma_round_trip(self)
        ensures
            SceneLoadMode::spec_from_name(self.spec_name()) == Some(self),
            SceneLoadMode::spec_from_i32(self.spec_value()) == Some(self),
            forall|name: Seq<char>|
                #[trigger] SceneLoadMode::spec_from_name(name) == Some(self) ==> name == self.spec_name(),
            forall|value: i32|
                #[trigger] SceneLoadMode::spec_from_i32(value) == Some(self) ==> value == self.spec_value(),
    {
        reveal_strlit("SCENE_LOAD_MODE_UNSPECIFIED");
        reveal_strlit("SCENE_LOAD_MODE_SINGLE");
        reveal_strlit("SCENE_LOAD_MODE_ADDITIVE");
        assert("SCENE_LOAD_MODE_UNSPECIFIED"@.len() == 27);
        assert("SCENE_LOAD_MODE_SINGLE"@.len() == 22);
        assert("SCENE_LOAD_MODE_ADDITIVE"@.len() == 24);
        match self {
            SceneLoadMode::Unspecified => {},
            SceneLoadMode::Single => {},
            SceneLoadMode::Additive => {},
        }
    }
}

impl Default for SceneLoadMode {
    /// The value with wire number zero.
    fn default() -> (res: SceneLoadMode)
        ensures
            res == SceneLoadMode::Unspecified,
    {
        SceneLoadMode::Unspecified
    }
}

impl From<SceneLoadMode> for i32 {
    fn from(value: SceneLoadMode) -> (res: i32) {
        match value {
            SceneLoadMode::Unspecified => 0,
            SceneLoadMode::Single => 1,
            SceneLoadMode::Additive => 2,
        }
    }
}

impl FromSpecImpl<SceneLoadMode> for i32 {
    open spec fn obeys_from_spec() -> bool {
        true
    }

    open spec fn from_spec(value: SceneLoadMode) -> i32 {
        value.spec_value()
    }
}

/// Possible client logging levels
#[derive(Clone, Copy, Debug, PartialEq, Eq, Structural, Hash, PartialOrd, Ord)]
pub enum LogMessageLevel {
    Unspecified,
    Standard,
    Warning,
    Error,
}

impl LogMessageLevel {
    /// The field name of this value in the protocol definition.
    pub open spec fn spec_name(self) -> Seq<char> {
        match self {
            LogMessageLevel::Unspecified => "LOG_MESSAGE_LEVEL_UNSPECIFIED"@,
            LogMessageLevel::Standard => "LOG_MESSAGE_LEVEL_STANDARD"@,
            LogMessageLevel::Warning => "LOG_MESSAGE_LEVEL_WARNING"@,
            LogMessageLevel::Error => "LOG_MESSAGE_LEVEL_ERROR"@,
        }
    }

    /// The value decoded from a protocol field name, if it names one.
    pub open spec fn spec_from_name(name: Seq<char>) -> Option<LogMessageLevel> {
        if name == "LOG_MESSAGE_LEVEL_UNSPECIFIED"@ {
            Some(LogMessageLevel::Unspecified)
        } else if name == "LOG_MESSAGE_LEVEL_STANDARD"@ {
            Some(LogMessageLevel::Standard)
        } else if name == "LOG_MESSAGE_LEVEL_WARNING"@ {
            Some(LogMessageLevel::Warning)
        } else if name == "LOG_MESSAGE_LEVEL_ERROR"@ {
            Some(LogMessageLevel::Error)
        } else {
            None
        }
    }

    /// The number by which this value is encoded on the wire.
    pub open spec fn spec_value(self) -> i32 {
        match self {
            LogMessageLevel::Unspecified => 0,
            LogMessageLevel::Standard => 1,
            LogMessageLevel::Warning => 2,
            LogMessageLevel::Error => 3,
        }
    }

    /// The value encoded on the wire by `value`, if any.
    pub open spec fn spec_from_i32(value: i32) -> Option<LogMessageLevel> {
        if value == 0 {
            Some(LogMessageLevel::Unspecified)
        } else if value == 1 {
            Some(LogMessageLevel::Standard)
        } else if value == 2 {
            Some(LogMessageLevel::Warning)
        } else if value == 3 {
            Some(LogMessageLevel::Error)
        } else {
            None
        }
    }

    /// String value of the enum field names used in the protocol definition.
    pub fn as_str_name(&self) -> (name: &'static str)
        ensures
            name@ == self.spec_name(),
    {
        match self {
            LogMessageLevel::Unspecified => "LOG_MESSAGE_LEVEL_UNSPECIFIED",
            LogMessageLevel::Standard => "LOG_MESSAGE_LEVEL_STANDARD",
            LogMessageLevel::Warning => "LOG_MESSAGE_LEVEL_WARNING",
            LogMessageLevel::Error => "LOG_MESSAGE_LEVEL_ERROR",
        }
    }

    /// Creates a value from a field name used in the protocol definition.
    pub fn from_str_name(value: &str) -> (res: Option<LogMessageLevel>)
        ensures
            res == LogMessageLevel::spec_from_name(value@),
    {
        if str_eq(value, "LOG_MESSAGE_LEVEL_UNSPECIFIED") {
            Some(LogMessageLevel::Unspecified)
        } else if str_eq(value, "LOG_MESSAGE_LEVEL_STANDARD") {
            Some(LogMessageLevel::Standard)
        } else if str_eq(value, "LOG_MESSAGE_LEVEL_WARNING") {
            Some(LogMessageLevel::Warning)
        } else if str_eq(value, "LOG_MESSAGE_LEVEL_ERROR") {
            Some(LogMessageLevel::Error)
        } else {
            None
        }
    }

    /// Decodes a wire number, returning `None` for numbers that name no value.
    pub fn from_i32(value: i32) -> (res: Option<LogMessageLevel>)
        ensures
            res == LogMessageLevel::spec_from_i32(value),
    {
        match value {
            0 => Some(LogMessageLevel::Unspecified),
            1 => Some(LogMessageLevel::Standard),
            2 => Some(LogMessageLevel::Warning),
            3 => Some(LogMessageLevel::Error),
            _ => None,
        }
    }

    /// Whether `value` is the wire number of some value.
    pub fn is_valid(value: i32) -> (res: bool)
        ensures
            res == LogMessageLevel::spec_from_i32(value).is_some(),
    {
        LogMessageLevel::from_i32(value).is_some()
    }

    /// A value's field name and wire number each decode back to that value,
    /// and no other field name or number decodes to it.
    pub proof fn lemma_round_trip(self)
        ensures
            LogMessageLevel::spec_from_name(self.spec_name()) == Some(self),
            LogMessageLevel::spec_from_i32(self.spec_value()) == Some(self),
            forall|name: Seq<char>|
                #[trigger] LogMessageLevel::spec_from_name(name) == Some(self) ==> name == self.spec_name(),
            forall|value: i32|
                #[trigger] LogMessageLevel::spec_from_i32(value) == Some(self) ==> value == self.spec_value(),
    {
        reveal_strlit("LOG_MESSAGE_LEVEL_UNSPECIFIED");
        reveal_strlit("LOG_MESSAGE_LEVEL_STANDARD");
        reveal_strlit("LOG_MESSAGE_LEVEL_WARNING");
        reveal_strlit("LOG_MESSAGE_LEVEL_ERROR");
        assert("LOG_MESSAGE_LEVEL_UNSPECIFIED"@.len() == 29);
        assert("LOG_MESSAGE_LEVEL_STANDARD"@.len() == 26);
        assert("LOG_MESSAGE_LEVEL_WARNING"@.len() == 25);
        assert("LOG_MESSAGE_LEVEL_ERROR"@.len() == 23);
        match self {
            LogMessageLevel::Unspecified => {},
            LogMessageLevel::Standard => {},
            LogMessageLevel::Warning => {},
            LogMessageLevel::Error => {},
        }
    }
}

impl Default for LogMessageLevel {
    /// The value with wire number zero.
    fn default() -> (res: LogMessageLevel)
        ensures
            res == LogMessageLevel::Unspecified,
    {
        LogMessageLevel::Unspecified
    }
}

impl From<LogMessageLevel> for i32 {
    fn from(value: LogMessageLevel) -> (res: i32) {
        match value {
            LogMessageLevel::Unspecified => 0,
            LogMessageLevel::Standard => 1,
            LogMessageLevel::Warning => 2,
            LogMessageLevel::Error => 3,
        }
    }
}

impl FromSpecImpl<LogMessageLevel> for i32 {
    open spec fn obeys_from_spec() -> bool {
        true
    }

    open spec fn from_spec(value: LogMessageLevel) -> i32 {
        value.spec_value()
    }
}

/// Wire enumeration `MapTileType` of the client protocol.
#[derive(Clone, Copy, Debug, PartialEq, Eq, Structural, Hash, PartialOrd, Ord)]
pub enum MapTileType {
    Unspecified,
    /// Player cannot move through this tile
    Obstacle,
    /// Player can walk through this tile
    Walkable,
    /// Player cannot enter this tile but can click to walk adjacent to it
    Visitable,
}

impl MapTileType {
    /// The field name of this value in the protocol definition.
    pub open spec fn spec_name(self) -> Seq<char> {
        match self {
            MapTileType::Unspecified => "MAP_TILE_TYPE_UNSPECIFIED"@,
            MapTileType::Obstacle => "MAP_TILE_TYPE_OBSTACLE"@,
            MapTileType::Walkable => "MAP_TILE_TYPE_WALKABLE"@,
            MapTileType::Visitable => "MAP_TILE_TYPE_VISITABLE"@,
        }
    }

    /// The value decoded from a protocol field name, if it names one.
    pub open spec fn spec_from_name(name: Seq<char>) -> Option<MapTileType> {
        if name == "MAP_TILE_TYPE_UNSPECIFIED"@ {
            Some(MapTileType::Unspecified)
        } else if name == "MAP_TILE_TYPE_OBSTACLE"@ {
            Some(MapTileType::Obstacle)
        } else if name == "MAP_TILE_TYPE_WALKABLE"@ {
            Some(MapTileType::Walkable)
        } else if name == "MAP_TILE_TYPE_VISITABLE"@ {
            Some(MapTileType::Visitable)
        } else {
            None
        }
    }

    /// The number by which this value is encoded on the wire.
    pub open spec fn spec_value(self) -> i32 {
        match self {
            MapTileType::Unspecified => 0,
            MapTileType::Obstacle => 1,
            MapTileType::Walkable => 2,
            MapTileType::Visitable => 3,
        }
    }

    /// The value encoded on the wire by `value`, if any.
    pub open spec fn spec_from_i32(value: i32) -> Option<MapTileType> {
        if value == 0 {
            Some(MapTileType::Unspecified)
        } else if value == 1 {
            Some(MapTileType::Obstacle)
        } else if value == 2 {
            Some(MapTileType::Walkable)
        } else if value == 3 {
            Some(MapTileType::Visitable)
        } else {
            None
        }
    }

    /// String value of the enum field names used in the protocol definition.
    pub fn as_str_name(&self) -> (name: &'static str)
        ensures
            name@ == self.spec_name(),
    {
        match self {
            MapTileType::Unspecified => "MAP_TILE_TYPE_UNSPECIFIED",
            MapTileType::Obstacle => "MAP_TILE_TYPE_OBSTACLE",
            MapTileType::Walkable => "MAP_TILE_TYPE_WALKABLE",
            MapTileType::Visitable => "MAP_TILE_TYPE_VISITABLE",
        }
    }

    /// Creates a value from a field name used in the protocol definition.
    pub fn from_str_name(value: &str) -> (res: Option<MapTileType>)
        ensures
            res == MapTileType::spec_from_name(value@),
    {
        if str_eq(value, "MAP_TILE_TYPE_UNSPECIFIED") {
            Some(MapTileType::Unspecified)
        } else if str_eq(value, "MAP_TILE_TYPE_OBSTACLE") {
            Some(MapTileType::Obstacle)
        } else if str_eq(value, "MAP_TILE_TYPE_WALKABLE") {
            Some(MapTileType::Walkable)
        } else if str_eq(value, "MAP_TILE_TYPE_VISITABLE") {
            Some(MapTileType::Visitable)
        } else {
            None
        }
    }

    /// Decodes a wire number, returning `None` for numbers that name no value.
    pub fn from_i32(value: i32) -> (res: Option<MapTileType>)
        ensures
            res == MapTileType::spec_from_i32(value),
    {
        match value {
            0 => Some(MapTileType::Unspecified),
            1 => Some(MapTileType::Obstacle),
            2 => Some(MapTileType::Walkable),
            3 => Some(MapTileType::Visitable),
            _ => None,
        }
    }

    /// Whether `value` is the wire number of some value.
    pub fn is_valid(value: i32) -> (res: bool)
        ensures
            res == MapTileType::spec_from_i32(value).is_some(),
    {
        MapTileType::from_i32(value).is_some()
    }

    /// A value's field name and wire number each decode back to that value,
    /// and no other field name or number decodes to it.
    pub proof fn lemma_round_trip(self)
        ensures
            MapTileType::spec_from_name(self.spec_name()) == Some(self),
            MapTileType::spec_from_i32(self.spec_value()) == Some(self),
            forall|name: Seq<char>|
                #[trigger] MapTileType::spec_from_name(name) == Some(self) ==> name == self.spec_name(),
            forall|value: i32|
                #[trigger] MapTileType::spec_from_i32(value) == Some(self) ==> value == self.spec_value(),
    {
        reveal_strlit("MAP_TILE_TYPE_UNSPECIFIED");
        reveal_strlit("MAP_TILE_TYPE_OBSTACLE");
        reveal_strlit("MAP_TILE_TYPE_WALKABLE");
        reveal_strlit("MAP_TILE_TYPE_VISITABLE");
        assert("MAP_TILE_TYPE_UNSPECIFIED"@.len() == 25);
        assert("MAP_TILE_TYPE_OBSTACLE"@.len() == 22);
        assert("MAP_TILE_TYPE_WALKABLE"@.len() == 22);
        assert("MAP_TILE_TYPE_VISITABLE"@.len() == 23);
        assert("MAP_TILE_TYPE_OBSTACLE"@[14] != "MAP_TILE_TYPE_WALKABLE"@[14]);
        match self {
            MapTileType::Unspecified => {},
            MapTileType::Obstacle => {},
            MapTileType::Walkable => {},
            MapTileType::Visitable => {},
        }
    }
}

impl Default for MapTileType {
    /// The value with wire number zero.
    fn default() -> (res: MapTileType)
        ensures
            res == MapTileType::Unspecified,
    {
        MapTileType::Unspecified
    }
}

impl From<MapTileType> for i32 {
    fn from(value: MapTileType) -> (res: i32) {
        match value {
            MapTileType::Unspecified => 0,
            MapTileType::Obstacle => 1,
            MapTileType::Walkable => 2,
            MapTileType::Visitable => 3,
        }
    }
}

impl FromSpecImpl<MapTileType> for i32 {
    open spec fn obeys_from_spec() -> bool {
        true
    }

    open spec fn from_spec(value: MapTileType) -> i32 {
        value.spec_value()
    }
}

} // verus!
