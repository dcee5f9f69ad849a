//! Bot configurations: the on-chain record layout, its write-time
//! validation, and the plain slice of it that crosses the proof boundary.
//!
//! The registry stores one immutable `BotConfig` per token; writes enforce
//! the documented field ranges.  The simulator reads only a few fields, each
//! lowered to a plain value: the pattern and diversity names, the damage
//! multiplier, and the threat count.

use vstd::prelude::*;
use vstd::string::StringSliceAdditionalSpecFns;
use vstd::string::StringExecFns;

verus! {

/// Kind of bot a configuration describes.
#[derive(Clone, Copy, Debug, PartialEq, Eq, Structural)]
pub enum BotType {
    Malware,
    Trojan,
    Ransomware,
    Worm,
    Rootkit,
    Spyware,
    Botnet,
    LogicBomb,
}

/// Target system a bot attacks.
#[derive(Clone, Copy, Debug, PartialEq, Eq, Structural)]
pub enum SystemTargetId {
    Compute,
    Storage,
    Network,
    Auth,
    Analytics,
    Communication,
    Transaction,
    Api,
    Endpoint,
    Cdn,
    Iot,
}

/// Resource a bot drains.
#[derive(Clone, Copy, Debug, PartialEq, Eq, Structural)]
pub enum ResourceAttackType {
    Cpu,
    Memory,
    Bandwidth,
    Disk,
    NoAttack,
}

/// How a bot wins a round.
#[derive(Clone, Copy, Debug, PartialEq, Eq, Structural)]
pub enum VictoryCondition {
    TimeSurvival,
    SystemDestruction,
    DataExfiltration,
}

/// Special ability a bot may carry.
#[derive(Clone, Copy, Debug, PartialEq, Eq, Structural)]
pub enum SpecialAbility {
    Stealth,
    Mutation,
    Replication,
    Encryption,
    Persistence,
}

/// When threats appear over the round.
#[derive(Clone, Copy, Debug, PartialEq, Eq, Structural)]
pub enum SpawnPattern {
    Steady,
    Burst,
    Crescendo,
}

/// How many distinct skills each threat requires.
#[derive(Clone, Copy, Debug, PartialEq, Eq, Structural)]
pub enum SkillDiversity {
    Low,
    Medium,
    High,
}

/// Storage key of the registry, per token.
#[derive(Clone, Copy, Debug, PartialEq, Eq, Structural)]
pub enum DataKey {
    NextTokenId,
    Owner(u32),
    BotConfig(u32),
    BotMetadata(u32),
}

/// An immutable bot configuration as the registry stores it.
#[derive(Clone, Debug)]
pub struct BotConfig {
    /// Record version; only version 1 exists.
    pub version: u32,
    /// Display name; carries no meaning for the simulation.
    pub bot_name: String,
    /// Kind of bot; its canonical name enters the round seed.
    pub bot_type: BotType,
    /// Primary target, if any.
    pub primary_target: Option<SystemTargetId>,
    /// Up to three secondary targets.
    pub secondary_targets: Option<Vec<SystemTargetId>>,
    /// Resource drained.
    pub resource_attack: ResourceAttackType,
    /// Damage multiplier x100, between 50 and 200.
    pub damage_multiplier: u32,
    /// Victory condition.
    pub victory_condition: VictoryCondition,
    /// Up to five special abilities.
    pub abilities: Vec<SpecialAbility>,
    /// Number of threats per round, between 3 and 8.
    pub threat_count: u32,
    /// Spawn pattern.
    pub spawn_pattern: SpawnPattern,
    /// Skill diversity.
    pub skill_diversity: SkillDiversity,
}

/// The documented write-time ranges of a configuration record.
pub open spec fn spec_config_valid(c: BotConfig) -> bool {
    &&& c.version == 1
    &&& c.abilities@.len() <= 5
    &&& (c.secondary_targets matches Some(t) ==> t@.len() <= 3)
    &&& 50 <= c.damage_multiplier <= 200
    &&& 3 <= c.threat_count <= 8
}

/// Marker type of the on-chain registry contract.  Its storage and
/// transfer operations belong to the chain; only its write-time
/// validation is logic of this crate.
pub struct BotNFT;

impl BotNFT {
    /// Checks the documented write-time ranges of a configuration record,
    /// as the registry enforces them when a bot is deployed.
    pub fn validate_bot_config(config: &BotConfig) -> (r: bool)
        ensures
            r == spec_config_valid(*config),
    {
        if config.version != 1 {
            return false;
        }
        if config.abilities.len() > 5 {
            return false;
        }
        match &config.secondary_targets {
            Some(targets) => {
                if targets.len() > 3 {
                    return false;
                }
            },
            None => {},
        }
        if !(50 <= config.damage_multiplier && config.damage_multiplier <= 200) {
            return false;
        }
        if !(3 <= config.threat_count && config.threat_count <= 8) {
            return false;
        }
        true
    }
}

/// Canonical lowercase name of a bot type; enters the round seed.
pub open spec fn spec_bot_type_name(b: BotType) -> Seq<char> {
    match b {
        BotType::Malware => "malware"@,
        BotType::Trojan => "trojan"@,
        BotType::Ransomware => "ransomware"@,
        BotType::Worm => "worm"@,
        BotType::Rootkit => "rootkit"@,
        BotType::Spyware => "spyware"@,
        BotType::Botnet => "botnet"@,
        BotType::LogicBomb => "logicbomb"@,
    }
}

/// Canonical name of a spawn pattern, as the simulator matches it.
pub open spec fn spec_spawn_pattern_name(p: SpawnPattern) -> Seq<char> {
    match p {
        SpawnPattern::Steady => "steady"@,
        SpawnPattern::Burst => "burst"@,
        SpawnPattern::Crescendo => "crescendo"@,
    }
}

/// Canonical name of a skill diversity, as the simulator matches it.
pub open spec fn spec_skill_diversity_name(d: SkillDiversity) -> Seq<char> {
    match d {
        SkillDiversity::Low => "low"@,
        SkillDiversity::Medium => "medium"@,
        SkillDiversity::High => "high"@,
    }
}

/// The slice of a bot configuration that the simulation reads, lowered to
/// plain values.  Pattern and diversity travel as names so that the
/// simulator can apply its documented default for unrecognised values.
#[derive(Clone, Debug)]
pub struct SimConfig {
    /// Canonical bot type name; enters the round seed.
    pub bot_type: String,
    /// Damage multiplier x100.
    pub damage_multiplier: u32,
    /// Number of threats to generate.
    pub threat_count: u32,
    /// Spawn pattern name.
    pub spawn_pattern: String,
    /// Skill diversity name.
    pub skill_diversity: String,
}

/// Name of a bot type.
pub fn bot_type_name(b: &BotType) -> (r: String)
    ensures
        r@ == spec_bot_type_name(*b),
{
    match b {
        BotType::Malware => String::from_str("malware"),
        BotType::Trojan => String::from_str("trojan"),
        BotType::Ransomware => String::from_str("ransomware"),
        BotType::Worm => String::from_str("worm"),
        BotType::Rootkit => String::from_str("rootkit"),
        BotType::Spyware => String::from_str("spyware"),
        BotType::Botnet => String::from_str("botnet"),
        BotType::LogicBomb => String::from_str("logicbomb"),
    }
}

/// Name of a spawn pattern.
pub fn spawn_pattern_name(p: &SpawnPattern) -> (r: String)
    ensures
        r@ == spec_spawn_pattern_name(*p),
{
    match p {
        SpawnPattern::Steady => String::from_str("steady"),
        SpawnPattern::Burst => String::from_str("burst"),
        SpawnPattern::Crescendo => String::from_str("crescendo"),
    }
}

/// Name of a skill diversity.
pub fn skill_diversity_name(d: &SkillDiversity) -> (r: String)
    ensures
        r@ == spec_skill_diversity_name(*d),
{
    match d {
        SkillDiversity::Low => String::from_str("low"),
        SkillDiversity::Medium => String::from_str("medium"),
        SkillDiversity::High => String::from_str("high"),
    }
}

/// Lowers a registry record to the plain values the simulation reads.
pub fn to_sim_config(c: &BotConfig) -> (r: SimConfig)
    ensures
        r.bot_type@ == spec_bot_type_name(c.bot_type),
        r.damage_multiplier == c.damage_multiplier,
        r.threat_count == c.threat_count,
        r.spawn_pattern@ == spec_spawn_pattern_name(c.spawn_pattern),
        r.skill_diversity@ == spec_skill_diversity_name(c.skill_diversity),
{
    SimConfig {
        bot_type: bot_type_name(&c.bot_type),
        damage_multiplier: c.damage_multiplier,
        threat_count: c.threat_count,
        spawn_pattern: spawn_pattern_name(&c.spawn_pattern),
        skill_diversity: skill_diversity_name(&c.skill_diversity),
    }
}

} // verus!
