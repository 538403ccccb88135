//! Actor, ability and resource records shared by the event and fight models.
use vstd::prelude::*;

verus! {

/// The actor that caused an event.
#[derive(Debug, Clone, PartialEq)]
pub struct Source {
    pub id: Option<i64>,
    pub source_data: Option<ActorData>,
    pub is_friendly: bool,
    pub resources: Option<Resources>,
}

/// The id of an actor: its own id where present, else the guid of its actor record.
pub open spec fn actor_id(id: Option<i64>, data: Option<ActorData>) -> Option<i64> {
    match id {
        Some(i) => Some(i),
        None => match data {
            Some(a) => Some(a.guid),
            None => None,
        },
    }
}

impl Source {
    pub fn get_id(&self) -> (r: Option<i64>)
        ensures
            r == actor_id(self.id, self.source_data),
    {
        match self.id {
            Some(id) => Some(id),
            None => match &self.source_data {
                Some(actor) => Some(actor.guid),
                None => None,
            },
        }
    }
}

/// An in-game character or NPC that causes or receives an event.
#[derive(Debug, Clone, PartialEq)]
pub struct ActorData {
    pub name: String,
    pub id: i64,
    pub guid: i64,
    pub actor_type: String,
    pub icon: Option<String>,
}

/// The actor that received an event.
#[derive(Debug, Clone, PartialEq)]
pub struct Target {
    pub id: Option<i64>,
    pub target_data: Option<ActorData>,
    pub is_friendly: bool,
    pub resources: Option<Resources>,
}

impl Target {
    pub fn get_id(&self) -> (r: Option<i64>)
        ensures
            r == actor_id(self.id, self.target_data),
    {
        match self.id {
            Some(id) => Some(id),
            None => match &self.target_data {
                Some(actor) => Some(actor.guid),
                None => None,
            },
        }
    }
}

/// An ability used in an event; buffs are abilities too.
#[derive(Debug, Clone, PartialEq)]
pub struct Ability {
    pub name: String,
    pub guid: i64,
    pub ability_type: i64,
    pub icon: Option<String>,
}

/// The resources of an actor at one point in time.
#[derive(Debug, Clone, Copy, PartialEq, Eq)]
pub struct Resources {
    pub hp: Option<i64>,
    pub max_hp: Option<i64>,
    pub mp: Option<i64>,
    pub max_mp: Option<i64>,
    pub tp: Option<i64>,
    pub max_tp: Option<i64>,
    pub x: Option<i64>,
    pub y: Option<i64>,
    pub facing: Option<i64>,
    pub absorb: Option<i64>,
}

/// A unit listed in a report, with the fights it took part in.
#[derive(Debug, Clone, PartialEq)]
pub struct Unit {
    pub name: String,
    pub id: Option<i64>,
    pub guid: Option<i64>,
    pub unit_type: Option<String>,
    pub server: Option<String>,
    pub icon: Option<String>,
    pub pet_owner: Option<i64>,
    pub fights: Vec<FightLink>,
}

/// A reference to a fight by its id.
#[derive(Debug, Clone, Copy, PartialEq, Eq)]
pub struct FightLink {
    pub fight_id: i64,
}

/// The phase names a report gives for one boss.
#[derive(Debug, Clone, PartialEq)]
pub struct Instance {
    pub boss: Option<i64>,
    pub phases: Option<Vec<String>>,
}

impl Source {
    /// A field-for-field copy.
    pub fn duplicate(&self) -> (r: Source)
        ensures
            r == *self,
    {
        Source {
            id: self.id,
            source_data: match &self.source_data { Some(v) => Some(v.duplicate()), None => None },
            is_friendly: self.is_friendly,
            resources: self.resources,
        }
    }
}

impl ActorData {
    /// A field-for-field copy.
    pub fn duplicate(&self) -> (r: ActorData)
        ensures
            r == *self,
    {
        ActorData {
            name: self.name.clone(),
            id: self.id,
            guid: self.guid,
            actor_type: self.actor_type.clone(),
            icon: copy_opt_text(&self.icon),
        }
    }
}

impl Target {
    /// A field-for-field copy.
    pub fn duplicate(&self) -> (r: Target)
        ensures
            r == *self,
    {
        Target {
            id: self.id,
            target_data: match &self.target_data { Some(v) => Some(v.duplicate()), None => None },
            is_friendly: self.is_friendly,
            resources: self.resources,
        }
    }
}

impl Ability {
    /// A field-for-field copy.
    pub fn duplicate(&self) -> (r: Ability)
        ensures
            r == *self,
    {
        Ability {
            name: self.name.clone(),
            guid: self.guid,
            ability_type: self.ability_type,
            icon: copy_opt_text(&self.icon),
        }
    }
}

/// A copy of an optional text.
pub fn copy_opt_text(s: &Option<String>) -> (r: Option<String>)
    ensures
        r == *s,
{
    match s {
        Some(t) => Some(t.clone()),
        None => None,
    }
}

} // verus!
