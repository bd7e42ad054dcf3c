//! Configuration records for a managed server and for the images it runs.
//!
//! These are plain data: the reconciliation loops and file writers that act
//! on them live outside the library and convert at its boundary.

use vstd::prelude::*;

verus! {

/// A reference to the secret holding the RCON password.
#[derive(Clone, Debug)]
pub struct RconPassword {
    pub name: String,
    pub namespace: String,
}

/// Whether the server's licence agreement has been accepted.
#[derive(Clone, Copy, Debug, PartialEq, Eq, Structural)]
pub enum Eula {
    Agreed,
    NotAgreed,
}

/// The game difficulty.
#[derive(Clone, Copy, Debug, PartialEq, Eq, Structural)]
pub enum Difficulty {
    Peaceful,
    Easy,
    Normal,
    Hard,
}

/// The game mode players start in.
#[derive(Clone, Copy, Debug, PartialEq, Eq, Structural)]
pub enum GameMode {
    Survival,
    Creative,
    Spectator,
    Adventure,
}

/// Whether players may fight one another.
#[derive(Clone, Copy, Debug, PartialEq, Eq, Structural)]
pub enum PlayerVsPlayer {
    PvPAllowed,
    PvEOnly,
}

/// How the allow-list of players is handled.
#[derive(Clone, Copy, Debug, PartialEq, Eq, Structural)]
pub enum Whitelist {
    Disabled,
    Unmanaged,
    Managed,
}

/// The kind of world to generate.
#[derive(Clone, Copy, Debug, PartialEq, Eq, Structural)]
pub enum LevelType {
    Default,
    Flat,
    LargeBiomes,
    Amplified,
}

/// How the world is generated.
#[derive(Clone, Debug)]
pub struct WorldGeneration {
    pub seed: Option<String>,
    pub level_type: LevelType,
}

/// Whether a kind of creature spawns.
#[derive(Clone, Copy, Debug, PartialEq, Eq, Structural)]
pub enum SpawnBehaviour {
    Enabled,
    Disabled,
}

/// Which kinds of creatures spawn.
#[derive(Clone, Copy, Debug, PartialEq, Eq, Structural)]
pub struct Spawning {
    pub animals: SpawnBehaviour,
    pub monsters: SpawnBehaviour,
    pub non_player_characters: SpawnBehaviour,
}

/// The desired state of one managed server.
#[derive(Clone, Debug)]
pub struct MinecraftServerSpec {
    pub rcon_password_secret_ref: Option<RconPassword>,
    pub motd: String,
    pub eula: Option<Eula>,
    pub difficulty: Difficulty,
    pub game_mode: GameMode,
    pub view_distance: u8,
    pub world_size: String,
    pub maximum_build_height: u32,
    pub maximum_players: u32,
    pub pvp: PlayerVsPlayer,
    pub world_generation: Option<WorldGeneration>,
    pub whitelist: Whitelist,
    pub spawning: Spawning,
}

/// An unmodified upstream server build.
#[derive(Clone, Debug)]
pub struct Vanilla {
    pub minecraft_version: String,
}

/// A Spigot server build.
#[derive(Clone, Debug)]
pub struct Spigot {
    pub minecraft_version: String,
    pub spigot_version: String,
}

/// The desired state of one server image: a Java version and exactly one
/// kind of server build.
#[derive(Clone, Debug)]
pub struct MinecraftServerVersionSpec {
    pub java_version: String,
    pub vanilla: Option<Vanilla>,
    pub spigot: Option<Spigot>,
}

} // verus!
