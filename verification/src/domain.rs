//! Domain vocabulary shared by the services: resource modes and types,
//! identity kinds, emulator states, agent command states and the agent
//! events that the server reacts to.
use vstd::prelude::*;

use crate::text::str_eq;

verus! {

/// Where the foster resources of a subscription come from.
#[derive(Debug, Clone, Copy, PartialEq, Eq, Structural)]
pub enum ResourceMode {
    UserFriend,
    Platform,
}

/// Whether a stored resource mode is the platform's: only then is a
/// platform resource released and followed up after a run.
pub fn is_platform_mode(resource_mode: &str) -> (r: bool)
    ensures
        r == (resource_mode@ == "PLATFORM"@),
{
    str_eq(resource_mode, "PLATFORM")
}

/// The kind of platform resource that a foster run consumes.
#[derive(Debug, Clone, Copy, PartialEq, Eq, Structural)]
pub enum ResourceType {
    Fish,
    TaikoJade,
}

/// The kinds of identity hint stored for a game account.
#[derive(Debug, Clone, Copy, PartialEq, Eq, Structural)]
pub enum IdentityType {
    MaskedAccount,
    OcrAlias,
    CharacterName,
    ServerName,
    GameUid,
}

/// A trusted identity hint of a game account.
#[derive(Debug, Clone)]
pub struct AccountIdentity {
    pub kind: IdentityType,
    pub value: String,
    pub normalized_value: String,
    pub confidence: u8,
}

/// The identity that an agent read from the game screen.
#[derive(Debug, Clone)]
pub struct DetectedIdentity {
    pub masked_account: Option<String>,
    pub character_name: Option<String>,
    pub server_name: Option<String>,
    pub game_uid: Option<String>,
    pub ocr_aliases: Vec<String>,
}

/// The identity that an agent must find before it runs a foster job.
#[derive(Debug, Clone)]
pub struct FosterTargetIdentity {
    pub masked_account: Option<String>,
    pub account_aliases: Vec<String>,
    pub character_name: Option<String>,
    pub server_name: Option<String>,
    pub game_uid: Option<String>,
}

/// Error codes that an agent reports for a failed foster run.
#[derive(Debug, Clone, Copy, PartialEq, Eq, Structural)]
pub enum FosterErrorCode {
    IdentityMismatch,
    EmulatorOffline,
    ProviderNotFound,
    NoSlot,
    Other,
}

/// The lifecycle of an emulator instance.
#[derive(Debug, Clone, Copy, PartialEq, Eq, Structural)]
pub enum EmulatorLifecycleStatus {
    Offline,
    Starting,
    Booting,
    Ready,
    Stopping,
    Maintenance,
    Error,
}

/// Whether an emulator is free.
#[derive(Debug, Clone, Copy, PartialEq, Eq, Structural)]
pub enum EmulatorOccupancyStatus {
    Idle,
    Busy,
    Recovery,
    Maintenance,
}

/// What a busy emulator is doing.
#[derive(Debug, Clone, Copy, PartialEq, Eq, Structural)]
pub enum EmulatorActivity {
    NoActivity,
    Login,
    Foster,
    ManualControl,
}

/// The kind of a command that an agent reports on after a restart.
#[derive(Debug, Clone, Copy, PartialEq, Eq, Structural)]
pub enum AgentCommandKind {
    Foster,
    Login,
}

/// The state of a command that an agent reports on after a restart.
#[derive(Debug, Clone, Copy, PartialEq, Eq, Structural)]
pub enum AgentCommandStatus {
    Running,
    Finished,
    Interrupted,
}

/// One command that an agent reports on; `command_id` is the 128-bit
/// value of the command's UUID.
#[derive(Debug, Clone, Copy)]
pub struct AgentCommandState {
    pub command_id: u128,
    pub kind: AgentCommandKind,
    pub job_id: Option<i64>,
    pub attempt: Option<i32>,
    pub status: AgentCommandStatus,
}

/// The phone platform on which a customer logs in.
#[derive(Debug, Clone, Copy, PartialEq, Eq, Structural)]
pub enum LoginPlatform {
    Android,
    Ios,
}

/// The stages that an agent reports while it runs a foster job.
#[derive(Debug, Clone, Copy, PartialEq, Eq, Structural)]
pub enum FosterStage {
    SwitchingAccount,
    VerifyingAccount,
    Running,
}

/// The lifecycle status of a foster job.
#[derive(Debug, Clone, Copy, PartialEq, Eq, Structural)]
pub enum FosterJobStatus {
    SwitchingAccount,
    VerifyingAccount,
    Running,
}

/// The resource type that a stored resource type name stands for; the
/// names `DOUYU`, `JADE` and `TAIKO` are older spellings.
pub open spec fn resource_type_of(name: Seq<char>) -> Option<ResourceType> {
    if name == "FISH"@ || name == "DOUYU"@ {
        Some(ResourceType::Fish)
    } else if name == "TAIKO_JADE"@ || name == "JADE"@ || name == "TAIKO"@ {
        Some(ResourceType::TaikoJade)
    } else {
        None
    }
}

/// The resource type that `name` stands for, if any.
pub fn resource_type_from(name: &str) -> (r: Option<ResourceType>)
    ensures
        r == resource_type_of(name@),
{
    if str_eq(name, "FISH") || str_eq(name, "DOUYU") {
        Some(ResourceType::Fish)
    } else if str_eq(name, "TAIKO_JADE") || str_eq(name, "JADE") || str_eq(name, "TAIKO") {
        Some(ResourceType::TaikoJade)
    } else {
        None
    }
}

/// The stored name of a resource type.
pub open spec fn resource_type_name_of(t: ResourceType) -> Seq<char> {
    match t {
        ResourceType::Fish => "FISH"@,
        ResourceType::TaikoJade => "TAIKO_JADE"@,
    }
}

/// The stored name of a resource type.
pub fn resource_type_name(t: ResourceType) -> (r: &'static str)
    ensures
        r@ == resource_type_name_of(t),
{
    match t {
        ResourceType::Fish => "FISH",
        ResourceType::TaikoJade => "TAIKO_JADE",
    }
}

/// A copy of an optional text.
pub fn clone_opt(value: &Option<String>) -> (r: Option<String>)
    ensures
        r.deep_view() == value.deep_view(),
{
    match value {
        Some(text) => Some(text.clone()),
        None => None,
    }
}


/// Reading back the stored name of a resource type gives that type.
pub proof fn law_resource_type_name_round_trip(t: ResourceType)
    ensures
        resource_type_of(resource_type_name_of(t)) == Some(t),
{
    reveal_strlit("FISH");
    reveal_strlit("DOUYU");
    reveal_strlit("TAIKO_JADE");
    reveal_strlit("JADE");
    reveal_strlit("TAIKO");
    if t == ResourceType::TaikoJade {
        assert("TAIKO_JADE"@.len() == 10);
        assert("TAIKO_JADE"@ != "FISH"@);
        assert("TAIKO_JADE"@ != "DOUYU"@);
    }
}

} // verus!
