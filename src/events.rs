//! The combat-log event model: one variant per kind of event, each with its timestamp.
use vstd::prelude::*;

use crate::types::{Ability, Resources, Source, Target};

verus! {

/// One event of a combat log. `UnparseableEvent` stands for a kind this model does not know.
#[derive(Debug, Clone, PartialEq)]
pub enum ReportEvent {
    CalculatedDamage(CalculatedDamage),
    Damage(Damage),
    CalculatedHeal(CalculatedHeal),
    Heal(Heal),
    BeginCast(BeginCast),
    Cast(Cast),
    ApplyBuff(ApplyBuff),
    RefreshBuff(RefreshBuff),
    ApplyBuffStack(ApplyBuffStack),
    RemoveBuff(RemoveBuff),
    RemoveBuffStack(RemoveBuffStack),
    ApplyDebuff(ApplyDebuff),
    RefreshDebuff(RefreshDebuff),
    ApplyDebuffStack(ApplyDebuffStack),
    RemoveDebuff(RemoveDebuff),
    RemoveDebuffStack(RemoveDebuffStack),
    Death(Death),
    LimitBreakUpdate(LimitBreakUpdate),
    UnparseableEvent,
}

/// The timestamp of an event: present for every kind but the unparseable one.
pub open spec fn event_timestamp(ev: ReportEvent) -> Option<u64> {
    match ev {
        ReportEvent::CalculatedDamage(e) => Some(e.timestamp),
        ReportEvent::Damage(e) => Some(e.timestamp),
        ReportEvent::CalculatedHeal(e) => Some(e.timestamp),
        ReportEvent::Heal(e) => Some(e.timestamp),
        ReportEvent::BeginCast(e) => Some(e.timestamp),
        ReportEvent::Cast(e) => Some(e.timestamp),
        ReportEvent::ApplyBuff(e) => Some(e.timestamp),
        ReportEvent::RefreshBuff(e) => Some(e.timestamp),
        ReportEvent::ApplyBuffStack(e) => Some(e.timestamp),
        ReportEvent::RemoveBuff(e) => Some(e.timestamp),
        ReportEvent::RemoveBuffStack(e) => Some(e.timestamp),
        ReportEvent::ApplyDebuff(e) => Some(e.timestamp),
        ReportEvent::RefreshDebuff(e) => Some(e.timestamp),
        ReportEvent::ApplyDebuffStack(e) => Some(e.timestamp),
        ReportEvent::RemoveDebuff(e) => Some(e.timestamp),
        ReportEvent::RemoveDebuffStack(e) => Some(e.timestamp),
        ReportEvent::Death(e) => Some(e.timestamp),
        ReportEvent::LimitBreakUpdate(e) => Some(e.timestamp),
        ReportEvent::UnparseableEvent => None,
    }
}

impl Default for ReportEvent {
    fn default() -> (r: ReportEvent)
        ensures
            r is UnparseableEvent,
    {
        ReportEvent::UnparseableEvent
    }
}

impl ReportEvent {
    pub fn get_timestamp(&self) -> (r: Option<u64>)
        ensures
            r == event_timestamp(*self),
            r.is_none() <==> *self is UnparseableEvent,
    {
        match self {
            ReportEvent::CalculatedDamage(ev) => Some(ev.timestamp),
            ReportEvent::Damage(ev) => Some(ev.timestamp),
            ReportEvent::CalculatedHeal(ev) => Some(ev.timestamp),
            ReportEvent::Heal(ev) => Some(ev.timestamp),
            ReportEvent::BeginCast(ev) => Some(ev.timestamp),
            ReportEvent::Cast(ev) => Some(ev.timestamp),
            ReportEvent::ApplyBuff(ev) => Some(ev.timestamp),
            ReportEvent::RefreshBuff(ev) => Some(ev.timestamp),
            ReportEvent::ApplyBuffStack(ev) => Some(ev.timestamp),
            ReportEvent::RemoveBuff(ev) => Some(ev.timestamp),
            ReportEvent::RemoveBuffStack(ev) => Some(ev.timestamp),
            ReportEvent::ApplyDebuff(ev) => Some(ev.timestamp),
            ReportEvent::RefreshDebuff(ev) => Some(ev.timestamp),
            ReportEvent::ApplyDebuffStack(ev) => Some(ev.timestamp),
            ReportEvent::RemoveDebuff(ev) => Some(ev.timestamp),
            ReportEvent::RemoveDebuffStack(ev) => Some(ev.timestamp),
            ReportEvent::Death(ev) => Some(ev.timestamp),
            ReportEvent::LimitBreakUpdate(ev) => Some(ev.timestamp),
            ReportEvent::UnparseableEvent => None,
        }
    }
}

/// Damage that has been snapshot and calculated but not yet applied.
#[derive(Debug, Clone, PartialEq)]
pub struct CalculatedDamage {
    pub timestamp: u64,
    pub source: Source,
    pub target: Option<Target>,
    pub ability: Ability,
    pub hit_type: Option<i64>,
    pub amount: Option<i64>,
    pub absorbed_amount: Option<i64>,
    pub multistrike: Option<bool>,
    pub packet_id: Option<i64>,
}

/// Damage that has been applied.
#[derive(Debug, Clone, PartialEq)]
pub struct Damage {
    pub timestamp: u64,
    pub source: Source,
    pub target: Option<Target>,
    pub ability: Ability,
    pub hit_type: Option<i64>,
    pub amount: Option<i64>,
    pub absorbed_amount: Option<i64>,
    pub multistrike: Option<bool>,
    pub packet_id: Option<i64>,
}

/// A heal whose amount has been calculated.
#[derive(Debug, Clone, PartialEq)]
pub struct CalculatedHeal {
    pub timestamp: u64,
    pub source: Source,
    pub target: Option<Target>,
    pub ability: Ability,
    pub hit_type: Option<i64>,
    pub amount: Option<i64>,
    pub packet_id: Option<i64>,
}

/// A heal that has been applied.
#[derive(Debug, Clone, PartialEq)]
pub struct Heal {
    pub timestamp: u64,
    pub source: Source,
    pub target: Option<Target>,
    pub ability: Ability,
    pub hit_type: Option<i64>,
    pub amount: Option<i64>,
    pub overheal: Option<i64>,
    pub packet_id: Option<i64>,
    pub target_resources: Option<Resources>,
}

/// An actor begins a cast.
#[derive(Debug, Clone, PartialEq)]
pub struct BeginCast {
    pub timestamp: u64,
    pub source: Source,
    pub target: Option<Target>,
    pub ability: Ability,
    pub packet_id: Option<i64>,
}

/// A cast completes.
#[derive(Debug, Clone, PartialEq)]
pub struct Cast {
    pub timestamp: u64,
    pub source: Source,
    pub target: Option<Target>,
    pub ability: Ability,
    pub packet_id: Option<i64>,
}

/// A buff is applied.
#[derive(Debug, Clone, PartialEq)]
pub struct ApplyBuff {
    pub timestamp: u64,
    pub source: Source,
    pub target: Option<Target>,
    pub ability: Ability,
    pub packet_id: Option<i64>,
}

/// The duration of a buff is refreshed.
#[derive(Debug, Clone, PartialEq)]
pub struct RefreshBuff {
    pub timestamp: u64,
    pub source: Source,
    pub target: Option<Target>,
    pub ability: Ability,
    pub packet_id: Option<i64>,
}

/// A stacking buff is applied or gains stacks.
#[derive(Debug, Clone, PartialEq)]
pub struct ApplyBuffStack {
    pub timestamp: u64,
    pub source: Source,
    pub target: Option<Target>,
    pub ability: Ability,
    pub stack_count: i64,
    pub packet_id: Option<i64>,
}

/// A buff falls off or is removed.
#[derive(Debug, Clone, PartialEq)]
pub struct RemoveBuff {
    pub timestamp: u64,
    pub source: Source,
    pub target: Option<Target>,
    pub ability: Ability,
    pub packet_id: Option<i64>,
}

/// A stacking buff loses stacks.
#[derive(Debug, Clone, PartialEq)]
pub struct RemoveBuffStack {
    pub timestamp: u64,
    pub source: Source,
    pub target: Option<Target>,
    pub ability: Ability,
    pub stack_count: i64,
    pub packet_id: Option<i64>,
}

/// A debuff is applied.
#[derive(Debug, Clone, PartialEq)]
pub struct ApplyDebuff {
    pub timestamp: u64,
    pub source: Source,
    pub target: Option<Target>,
    pub ability: Ability,
    pub packet_id: Option<i64>,
}

/// The duration of a debuff is refreshed.
#[derive(Debug, Clone, PartialEq)]
pub struct RefreshDebuff {
    pub timestamp: u64,
    pub source: Source,
    pub target: Option<Target>,
    pub ability: Ability,
    pub packet_id: Option<i64>,
}

/// A stacking debuff is applied or gains stacks.
#[derive(Debug, Clone, PartialEq)]
pub struct ApplyDebuffStack {
    pub timestamp: u64,
    pub source: Source,
    pub target: Option<Target>,
    pub ability: Ability,
    pub stack_count: i64,
    pub packet_id: Option<i64>,
}

/// A debuff falls off or is removed.
#[derive(Debug, Clone, PartialEq)]
pub struct RemoveDebuff {
    pub timestamp: u64,
    pub source: Source,
    pub target: Option<Target>,
    pub ability: Ability,
    pub packet_id: Option<i64>,
}

/// A stacking debuff loses stacks.
#[derive(Debug, Clone, PartialEq)]
pub struct RemoveDebuffStack {
    pub timestamp: u64,
    pub source: Source,
    pub target: Option<Target>,
    pub ability: Ability,
    pub stack_count: i64,
    pub packet_id: Option<i64>,
}

/// An actor dies.
#[derive(Debug, Clone, PartialEq)]
pub struct Death {
    pub timestamp: u64,
    pub source: Source,
    pub target: Option<Target>,
    pub ability: Option<Ability>,
    pub killer_id: Option<i64>,
    pub killing_ability: Option<Ability>,
}

/// The party's limit break gauge changes.
#[derive(Debug, Clone, PartialEq)]
pub struct LimitBreakUpdate {
    pub timestamp: u64,
    pub value: i32,
    pub bars: i32,
}

impl CalculatedDamage {
    /// A field-for-field copy.
    pub fn duplicate(&self) -> (r: CalculatedDamage)
        ensures
            r == *self,
    {
        CalculatedDamage {
            timestamp: self.timestamp,
            source: self.source.duplicate(),
            target: match &self.target { Some(v) => Some(v.duplicate()), None => None },
            ability: self.ability.duplicate(),
            hit_type: self.hit_type,
            amount: self.amount,
            absorbed_amount: self.absorbed_amount,
            multistrike: self.multistrike,
            packet_id: self.packet_id,
        }
    }
}

impl Damage {
    /// A field-for-field copy.
    pub fn duplicate(&self) -> (r: Damage)
        ensures
            r == *self,
    {
        Damage {
            timestamp: self.timestamp,
            source: self.source.duplicate(),
            target: match &self.target { Some(v) => Some(v.duplicate()), None => None },
            ability: self.ability.duplicate(),
            hit_type: self.hit_type,
            amount: self.amount,
            absorbed_amount: self.absorbed_amount,
            multistrike: self.multistrike,
            packet_id: self.packet_id,
        }
    }
}

impl CalculatedHeal {
    /// A field-for-field copy.
    pub fn duplicate(&self) -> (r: CalculatedHeal)
        ensures
            r == *self,
    {
        CalculatedHeal {
            timestamp: self.timestamp,
            source: self.source.duplicate(),
            target: match &self.target { Some(v) => Some(v.duplicate()), None => None },
            ability: self.ability.duplicate(),
            hit_type: self.hit_type,
            amount: self.amount,
            packet_id: self.packet_id,
        }
    }
}

impl Heal {
    /// A field-for-field copy.
    pub fn duplicate(&self) -> (r: Heal)
        ensures
            r == *self,
    {
        Heal {
            timestamp: self.timestamp,
            source: self.source.duplicate(),
            target: match &self.target { Some(v) => Some(v.duplicate()), None => None },
            ability: self.ability.duplicate(),
            hit_type: self.hit_type,
            amount: self.amount,
            overheal: self.overheal,
            packet_id: self.packet_id,
            target_resources: self.target_resources,
        }
    }
}

impl BeginCast {
    /// A field-for-field copy.
    pub fn duplicate(&self) -> (r: BeginCast)
        ensures
            r == *self,
    {
        BeginCast {
            timestamp: self.timestamp,
            source: self.source.duplicate(),
            target: match &self.target { Some(v) => Some(v.duplicate()), None => None },
            ability: self.ability.duplicate(),
            packet_id: self.packet_id,
        }
    }
}

impl Cast {
    /// A field-for-field copy.
    pub fn duplicate(&self) -> (r: Cast)
        ensures
            r == *self,
    {
        Cast {
            timestamp: self.timestamp,
            source: self.source.duplicate(),
            target: match &self.target { Some(v) => Some(v.duplicate()), None => None },
            ability: self.ability.duplicate(),
            packet_id: self.packet_id,
        }
    }
}

impl ApplyBuff {
    /// A field-for-field copy.
    pub fn duplicate(&self) -> (r: ApplyBuff)
        ensures
            r == *self,
    {
        ApplyBuff {
            timestamp: self.timestamp,
            source: self.source.duplicate(),
            target: match &self.target { Some(v) => Some(v.duplicate()), None => None },
            ability: self.ability.duplicate(),
            packet_id: self.packet_id,
        }
    }
}

impl RefreshBuff {
    /// A field-for-field copy.
    pub fn duplicate(&self) -> (r: RefreshBuff)
        ensures
            r == *self,
    {
        RefreshBuff {
            timestamp: self.timestamp,
            source: self.source.duplicate(),
            target: match &self.target { Some(v) => Some(v.duplicate()), None => None },
            ability: self.ability.duplicate(),
            packet_id: self.packet_id,
        }
    }
}

impl ApplyBuffStack {
    /// A field-for-field copy.
    pub fn duplicate(&self) -> (r: ApplyBuffStack)
        ensures
            r == *self,
    {
        ApplyBuffStack {
            timestamp: self.timestamp,
            source: self.source.duplicate(),
            target: match &self.target { Some(v) => Some(v.duplicate()), None => None },
            ability: self.ability.duplicate(),
            stack_count: self.stack_count,
            packet_id: self.packet_id,
        }
    }
}

impl RemoveBuff {
    /// A field-for-field copy.
    pub fn duplicate(&self) -> (r: RemoveBuff)
        ensures
            r == *self,
    {
        RemoveBuff {
            timestamp: self.timestamp,
            source: self.source.duplicate(),
            target: match &self.target { Some(v) => Some(v.duplicate()), None => None },
            ability: self.ability.duplicate(),
            packet_id: self.packet_id,
        }
    }
}

impl RemoveBuffStack {
    /// A field-for-field copy.
    pub fn duplicate(&self) -> (r: RemoveBuffStack)
        ensures
            r == *self,
    {
        RemoveBuffStack {
            timestamp: self.timestamp,
            source: self.source.duplicate(),
            target: match &self.target { Some(v) => Some(v.duplicate()), None => None },
            ability: self.ability.duplicate(),
            stack_count: self.stack_count,
            packet_id: self.packet_id,
        }
    }
}

impl ApplyDebuff {
    /// A field-for-field copy.
    pub fn duplicate(&self) -> (r: ApplyDebuff)
        ensures
            r == *self,
    {
        ApplyDebuff {
            timestamp: self.timestamp,
            source: self.source.duplicate(),
            target: match &self.target { Some(v) => Some(v.duplicate()), None => None },
            ability: self.ability.duplicate(),
            packet_id: self.packet_id,
        }
    }
}

impl RefreshDebuff {
    /// A field-for-field copy.
    pub fn duplicate(&self) -> (r: RefreshDebuff)
        ensures
            r == *self,
    {
        RefreshDebuff {
            timestamp: self.timestamp,
            source: self.source.duplicate(),
            target: match &self.target { Some(v) => Some(v.duplicate()), None => None },
            ability: self.ability.duplicate(),
            packet_id: self.packet_id,
        }
    }
}

impl ApplyDebuffStack {
    /// A field-for-field copy.
    pub fn duplicate(&self) -> (r: ApplyDebuffStack)
        ensures
            r == *self,
    {
        ApplyDebuffStack {
            timestamp: self.timestamp,
            source: self.source.duplicate(),
            target: match &self.target { Some(v) => Some(v.duplicate()), None => None },
            ability: self.ability.duplicate(),
            stack_count: self.stack_count,
            packet_id: self.packet_id,
        }
    }
}

impl RemoveDebuff {
    /// A field-for-field copy.
    pub fn duplicate(&self) -> (r: RemoveDebuff)
        ensures
            r == *self,
    {
        RemoveDebuff {
            timestamp: self.timestamp,
            source: self.source.duplicate(),
            target: match &self.target { Some(v) => Some(v.duplicate()), None => None },
            ability: self.ability.duplicate(),
            packet_id: self.packet_id,
        }
    }
}

impl RemoveDebuffStack {
    /// A field-for-field copy.
    pub fn duplicate(&self) -> (r: RemoveDebuffStack)
        ensures
            r == *self,
    {
        RemoveDebuffStack {
            timestamp: self.timestamp,
            source: self.source.duplicate(),
            target: match &self.target { Some(v) => Some(v.duplicate()), None => None },
            ability: self.ability.duplicate(),
            stack_count: self.stack_count,
            packet_id: self.packet_id,
        }
    }
}

impl Death {
    /// A field-for-field copy.
    pub fn duplicate(&self) -> (r: Death)
        ensures
            r == *self,
    {
        Death {
            timestamp: self.timestamp,
            source: self.source.duplicate(),
            target: match &self.target { Some(v) => Some(v.duplicate()), None => None },
            ability: match &self.ability { Some(v) => Some(v.duplicate()), None => None },
            killer_id: self.killer_id,
            killing_ability: match &self.killing_ability { Some(v) => Some(v.duplicate()), None => None },
        }
    }
}

impl LimitBreakUpdate {
    /// A field-for-field copy.
    pub fn duplicate(&self) -> (r: LimitBreakUpdate)
        ensures
            r == *self,
    {
        LimitBreakUpdate {
            timestamp: self.timestamp,
            value: self.value,
            bars: self.bars,
        }
    }
}

impl ReportEvent {
    /// A field-for-field copy.
    pub fn duplicate(&self) -> (r: ReportEvent)
        ensures
            r == *self,
    {
        match self {
            ReportEvent::CalculatedDamage(e) => ReportEvent::CalculatedDamage(e.duplicate()),
            ReportEvent::Damage(e) => ReportEvent::Damage(e.duplicate()),
            ReportEvent::CalculatedHeal(e) => ReportEvent::CalculatedHeal(e.duplicate()),
            ReportEvent::Heal(e) => ReportEvent::Heal(e.duplicate()),
            ReportEvent::BeginCast(e) => ReportEvent::BeginCast(e.duplicate()),
            ReportEvent::Cast(e) => ReportEvent::Cast(e.duplicate()),
            ReportEvent::ApplyBuff(e) => ReportEvent::ApplyBuff(e.duplicate()),
            ReportEvent::RefreshBuff(e) => ReportEvent::RefreshBuff(e.duplicate()),
            ReportEvent::ApplyBuffStack(e) => ReportEvent::ApplyBuffStack(e.duplicate()),
            ReportEvent::RemoveBuff(e) => ReportEvent::RemoveBuff(e.duplicate()),
            ReportEvent::RemoveBuffStack(e) => ReportEvent::RemoveBuffStack(e.duplicate()),
            ReportEvent::ApplyDebuff(e) => ReportEvent::ApplyDebuff(e.duplicate()),
            ReportEvent::RefreshDebuff(e) => ReportEvent::RefreshDebuff(e.duplicate()),
            ReportEvent::ApplyDebuffStack(e) => ReportEvent::ApplyDebuffStack(e.duplicate()),
            ReportEvent::RemoveDebuff(e) => ReportEvent::RemoveDebuff(e.duplicate()),
            ReportEvent::RemoveDebuffStack(e) => ReportEvent::RemoveDebuffStack(e.duplicate()),
            ReportEvent::Death(e) => ReportEvent::Death(e.duplicate()),
            ReportEvent::LimitBreakUpdate(e) => ReportEvent::LimitBreakUpdate(e.duplicate()),
            ReportEvent::UnparseableEvent => ReportEvent::UnparseableEvent,
        }
    }
}

} // verus!
