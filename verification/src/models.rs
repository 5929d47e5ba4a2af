use vstd::prelude::*;
use crate::record::{is_generated_key, RecordId};

verus! {

/// A race of the rules, as it is stored.
#[derive(Clone, Debug)]
pub struct Race {
    pub id: RecordId,
    pub race_name: String,
    pub move_speed: i16,
    pub ability_score_increase: AbilityScoreBonus,
    pub racial_traits: Vec<RacialTrait>,
    pub skill_proficiency_bonus: Vec<Skill>,
    pub languages: Vec<String>,
}

/// Collects the parts of a [`Race`] one call at a time.
#[derive(Clone)]
pub struct RaceBuilder {
    id: Option<RecordId>,
    race_name: Option<String>,
    move_speed: Option<i16>,
    ability_score_increase: Option<AbilityScoreBonus>,
    racial_traits: Vec<RacialTrait>,
    skill_proficiency_bonus: Vec<Skill>,
    languages: Vec<String>,
}

/// Why a [`RaceBuilder`] could not make a [`Race`].
#[derive(Debug)]
pub enum BuildError {
    MissingField(&'static str),
}

impl BuildError {
    /// The field whose absence this error reports.
    pub open spec fn field(self) -> Seq<char> {
        match self {
            BuildError::MissingField(f) => f@,
        }
    }

    /// The text shown for this error.
    pub fn message(&self) -> (text: String)
        ensures
            text@ == "Missing required field: "@ + self.field(),
    {
        match self {
            BuildError::MissingField(field) => String::from_str("Missing required field: ").concat(field),
        }
    }
}

impl Default for RaceBuilder {
    fn default() -> (b: Self)
        ensures
            b.is_blank(),
    {
        RaceBuilder::new()
    }
}

impl RaceBuilder {
    pub closed spec fn spec_id(&self) -> Option<RecordId> {
        self.id
    }

    pub closed spec fn spec_race_name(&self) -> Option<String> {
        self.race_name
    }

    pub closed spec fn spec_move_speed(&self) -> Option<i16> {
        self.move_speed
    }

    pub closed spec fn spec_ability_score_increase(&self) -> Option<AbilityScoreBonus> {
        self.ability_score_increase
    }

    pub closed spec fn spec_racial_traits(&self) -> Seq<RacialTrait> {
        self.racial_traits@
    }

    pub closed spec fn spec_skill_proficiency_bonus(&self) -> Seq<Skill> {
        self.skill_proficiency_bonus@
    }

    pub closed spec fn spec_languages(&self) -> Seq<String> {
        self.languages@
    }

    /// Nothing has been given to the builder yet.
    pub open spec fn is_blank(&self) -> bool {
        &&& self.spec_id() is None
        &&& self.spec_race_name() is None
        &&& self.spec_move_speed() is None
        &&& self.spec_ability_score_increase() is None
        &&& self.spec_racial_traits().len() == 0
        &&& self.spec_skill_proficiency_bonus().len() == 0
        &&& self.spec_languages().len() == 0
    }

    /// The name counts as given only when it is present and not empty.
    pub open spec fn has_name(&self) -> bool {
        self.spec_race_name() matches Some(n) && n@.len() > 0
    }

    /// The first required field that is missing, in the order id, name,
    /// move speed, ability score increase; `None` when all are there.
    pub open spec fn first_missing(&self) -> Option<Seq<char>> {
        if self.spec_id() is None {
            Some("id"@)
        } else if !self.has_name() {
            Some("race_name"@)
        } else if self.spec_move_speed() is None {
            Some("move_speed"@)
        } else if self.spec_ability_score_increase() is None {
            Some("ability_score_increase"@)
        } else {
            None
        }
    }

    /// A builder that was given an id, a non-empty name, a move speed and an
    /// ability score increase has no field missing, so it builds.
    pub proof fn lemma_complete_builder_builds(b: RaceBuilder)
        requires
            b.spec_id() is Some,
            b.has_name(),
            b.spec_move_speed() is Some,
            b.spec_ability_score_increase() is Some,
        ensures
            b.first_missing() is None,
    {
    }

    /// Starts a new builder instance.
    pub fn new() -> (b: Self)
        ensures
            b.is_blank(),
    {
        RaceBuilder {
            id: None,
            race_name: None,
            move_speed: None,
            ability_score_increase: None,
            racial_traits: Vec::new(),
            skill_proficiency_bonus: Vec::new(),
            languages: Vec::new(),
        }
    }

    /// Gives the race a new record address in `table`, with a fresh random key.
    pub fn id(&mut self, table: &str) -> (b: &mut Self)
        ensures
            b.spec_id() matches Some(id) && id.table@ == table@ && is_generated_key(id.key@),
            b.spec_race_name() == old(self).spec_race_name(),
            b.spec_move_speed() == old(self).spec_move_speed(),
            b.spec_ability_score_increase() == old(self).spec_ability_score_increase(),
            b.spec_racial_traits() == old(self).spec_racial_traits(),
            b.spec_skill_proficiency_bonus() == old(self).spec_skill_proficiency_bonus(),
            b.spec_languages() == old(self).spec_languages(),
            *final(self) == *final(b),
    {
        self.id = Some(RecordId::new_in(table));
        self
    }

    /// Sets the race's name.
    pub fn race_name(&mut self, name: String) -> (b: &mut Self)
        ensures
            b.spec_race_name() == Some(name),
            b.spec_id() == old(self).spec_id(),
            b.spec_move_speed() == old(self).spec_move_speed(),
            b.spec_ability_score_increase() == old(self).spec_ability_score_increase(),
            b.spec_racial_traits() == old(self).spec_racial_traits(),
            b.spec_skill_proficiency_bonus() == old(self).spec_skill_proficiency_bonus(),
            b.spec_languages() == old(self).spec_languages(),
            *final(self) == *final(b),
    {
        self.race_name = Some(name);
        self
    }

    /// Sets the race's walking speed in feet.
    pub fn move_speed(&mut self, speed: i16) -> (b: &mut Self)
        ensures
            b.spec_move_speed() == Some(speed),
            b.spec_id() == old(self).spec_id(),
            b.spec_race_name() == old(self).spec_race_name(),
            b.spec_ability_score_increase() == old(self).spec_ability_score_increase(),
            b.spec_racial_traits() == old(self).spec_racial_traits(),
            b.spec_skill_proficiency_bonus() == old(self).spec_skill_proficiency_bonus(),
            b.spec_languages() == old(self).spec_languages(),
            *final(self) == *final(b),
    {
        self.move_speed = Some(speed);
        self
    }

    /// Sets the race's ability score bonus.
    pub fn ability_score_increase(&mut self, bonus: AbilityScoreBonus) -> (b: &mut Self)
        ensures
            b.spec_ability_score_increase() == Some(bonus),
            b.spec_id() == old(self).spec_id(),
            b.spec_race_name() == old(self).spec_race_name(),
            b.spec_move_speed() == old(self).spec_move_speed(),
            b.spec_racial_traits() == old(self).spec_racial_traits(),
            b.spec_skill_proficiency_bonus() == old(self).spec_skill_proficiency_bonus(),
            b.spec_languages() == old(self).spec_languages(),
            *final(self) == *final(b),
    {
        self.ability_score_increase = Some(bonus);
        self
    }

    /// Appends a racial trait.
    pub fn add_racial_trait(&mut self, trait_item: RacialTrait) -> (b: &mut Self)
        ensures
            b.spec_racial_traits() == old(self).spec_racial_traits().push(trait_item),
            b.spec_id() == old(self).spec_id(),
            b.spec_race_name() == old(self).spec_race_name(),
            b.spec_move_speed() == old(self).spec_move_speed(),
            b.spec_ability_score_increase() == old(self).spec_ability_score_increase(),
            b.spec_skill_proficiency_bonus() == old(self).spec_skill_proficiency_bonus(),
            b.spec_languages() == old(self).spec_languages(),
            *final(self) == *final(b),
    {
        self.racial_traits.push(trait_item);
        self
    }

    /// Appends a skill proficiency.
    pub fn add_skill_proficiency(&mut self, skill: Skill) -> (b: &mut Self)
        ensures
            b.spec_skill_proficiency_bonus() == old(self).spec_skill_proficiency_bonus().push(skill),
            b.spec_id() == old(self).spec_id(),
            b.spec_race_name() == old(self).spec_race_name(),
            b.spec_move_speed() == old(self).spec_move_speed(),
            b.spec_ability_score_increase() == old(self).spec_ability_score_increase(),
            b.spec_racial_traits() == old(self).spec_racial_traits(),
            b.spec_languages() == old(self).spec_languages(),
            *final(self) == *final(b),
    {
        self.skill_proficiency_bonus.push(skill);
        self
    }

    /// Appends a language.
    pub fn add_language(&mut self, language: String) -> (b: &mut Self)
        ensures
            b.spec_languages() == old(self).spec_languages().push(language),
            b.spec_id() == old(self).spec_id(),
            b.spec_race_name() == old(self).spec_race_name(),
            b.spec_move_speed() == old(self).spec_move_speed(),
            b.spec_ability_score_increase() == old(self).spec_ability_score_increase(),
            b.spec_racial_traits() == old(self).spec_racial_traits(),
            b.spec_skill_proficiency_bonus() == old(self).spec_skill_proficiency_bonus(),
            *final(self) == *final(b),
    {
        self.languages.push(language);
        self
    }

    /// Makes the race, or reports the first required field that is missing:
    /// the id, then the name (an empty name counts as missing), then the
    /// move speed, then the ability score increase.
    pub fn build(self) -> (res: Result<Race, BuildError>)
        ensures
            match res {
                Ok(race) => {
                    &&& self.first_missing() is None
                    &&& race.id == self.spec_id().unwrap()
                    &&& race.race_name == self.spec_race_name().unwrap()
                    &&& race.move_speed == self.spec_move_speed().unwrap()
                    &&& race.ability_score_increase == self.spec_ability_score_increase().unwrap()
                    &&& race.racial_traits@ == self.spec_racial_traits()
                    &&& race.skill_proficiency_bonus@ == self.spec_skill_proficiency_bonus()
                    &&& race.languages@ == self.spec_languages()
                },
                Err(e) => self.first_missing() == Some(e.field()),
            },
    {
        let RaceBuilder {
            id,
            race_name,
            move_speed,
            ability_score_increase,
            racial_traits,
            skill_proficiency_bonus,
            languages,
        } = self;
        let race_name = match race_name {
            Some(name) => if name.as_str().is_empty() {
                None
            } else {
                Some(name)
            },
            None => None,
        };
        let id = match id {
            Some(id) => id,
            None => return Err(BuildError::MissingField("id")),
        };
        let race_name = match race_name {
            Some(name) => name,
            None => return Err(BuildError::MissingField("race_name")),
        };
        let move_speed = match move_speed {
            Some(speed) => speed,
            None => return Err(BuildError::MissingField("move_speed")),
        };
        let ability_score_increase = match ability_score_increase {
            Some(bonus) => bonus,
            None => return Err(BuildError::MissingField("ability_score_increase")),
        };
        Ok(Race {
            id,
            race_name,
            move_speed,
            ability_score_increase,
            racial_traits,
            skill_proficiency_bonus,
            languages,
        })
    }
}


/// A trait that a race grants from a given character level on.
#[derive(Debug)]
pub struct RacialTrait {
    pub level: i8,
    pub trait_name: String,
    pub description: String,
}

impl Clone for RacialTrait {
    fn clone(&self) -> (res: Self)
        ensures
            res == *self,
    {
        RacialTrait {
            level: self.level,
            trait_name: self.trait_name.clone(),
            description: self.description.clone(),
        }
    }
}

/// The bonus a race adds to each of the six ability scores.
#[derive(Clone, Copy, Debug, PartialEq, Eq, Structural)]
pub struct AbilityScoreBonus {
    pub strength: i8,
    pub dexterity: i8,
    pub constitution: i8,
    pub intelligence: i8,
    pub wisdom: i8,
    pub charisma: i8,
}

/// A skill a character can be proficient in.
#[derive(Clone, Copy, Debug, PartialEq, Eq, Structural)]
pub enum Skill {
    Acrobatics,
    AnimalHandling,
    Arcana,
    Athletics,
    Deception,
    History,
    Insight,
    Intimidation,
    Investigation,
    Medicine,
    Nature,
    Perception,
    Performance,
    Persuasion,
    Religion,
    SleightOfHand,
    Stealth,
    Survival,
}

/// The name under which a skill is shown.
pub open spec fn skill_name(s: Skill) -> Seq<char> {
    match s {
        Skill::Acrobatics => "Acrobatics"@,
        Skill::AnimalHandling => "Animal Handling"@,
        Skill::Arcana => "Arcana"@,
        Skill::Athletics => "Athletics"@,
        Skill::Deception => "Deception"@,
        Skill::History => "History"@,
        Skill::Insight => "Insight"@,
        Skill::Intimidation => "Intimidation"@,
        Skill::Investigation => "Investigation"@,
        Skill::Medicine => "Medicine"@,
        Skill::Nature => "Nature"@,
        Skill::Perception => "Perception"@,
        Skill::Performance => "Performance"@,
        Skill::Persuasion => "Persuasion"@,
        Skill::Religion => "Religion"@,
        Skill::SleightOfHand => "Sleight of Hand"@,
        Skill::Stealth => "Stealth"@,
        Skill::Survival => "Survival"@,
    }
}

/// Every skill is shown under the rules' name of that very skill.
pub proof fn lemma_skill_name_table(s: Skill)
    ensures
        s == Skill::Acrobatics ==> skill_name(s) == "Acrobatics"@,
        s == Skill::AnimalHandling ==> skill_name(s) == "Animal Handling"@,
        s == Skill::Arcana ==> skill_name(s) == "Arcana"@,
        s == Skill::Athletics ==> skill_name(s) == "Athletics"@,
        s == Skill::Deception ==> skill_name(s) == "Deception"@,
        s == Skill::History ==> skill_name(s) == "History"@,
        s == Skill::Insight ==> skill_name(s) == "Insight"@,
        s == Skill::Intimidation ==> skill_name(s) == "Intimidation"@,
        s == Skill::Investigation ==> skill_name(s) == "Investigation"@,
        s == Skill::Medicine ==> skill_name(s) == "Medicine"@,
        s == Skill::Nature ==> skill_name(s) == "Nature"@,
        s == Skill::Perception ==> skill_name(s) == "Perception"@,
        s == Skill::Performance ==> skill_name(s) == "Performance"@,
        s == Skill::Persuasion ==> skill_name(s) == "Persuasion"@,
        s == Skill::Religion ==> skill_name(s) == "Religion"@,
        s == Skill::SleightOfHand ==> skill_name(s) == "Sleight of Hand"@,
        s == Skill::Stealth ==> skill_name(s) == "Stealth"@,
        s == Skill::Survival ==> skill_name(s) == "Survival"@,
{
}

/// Two different skills are never shown under the same name.
pub proof fn lemma_skill_names_distinct(a: Skill, b: Skill)
    requires
        a != b,
    ensures
        skill_name(a) != skill_name(b),
{
    reveal_strlit("Acrobatics");
    reveal_strlit("Animal Handling");
    reveal_strlit("Arcana");
    reveal_strlit("Athletics");
    reveal_strlit("Deception");
    reveal_strlit("History");
    reveal_strlit("Insight");
    reveal_strlit("Intimidation");
    reveal_strlit("Investigation");
    reveal_strlit("Medicine");
    reveal_strlit("Nature");
    reveal_strlit("Perception");
    reveal_strlit("Performance");
    reveal_strlit("Persuasion");
    reveal_strlit("Religion");
    reveal_strlit("Sleight of Hand");
    reveal_strlit("Stealth");
    reveal_strlit("Survival");
    if skill_name(a) == skill_name(b) {
        assert(skill_name(a).len() == skill_name(b).len());
        assert(skill_name(a)[0] == skill_name(b)[0]);
        assert(skill_name(a)[1] == skill_name(b)[1]);
        assert(skill_name(a)[2] == skill_name(b)[2]);
        assert(skill_name(a)[3] == skill_name(b)[3]);
    }
}

impl Skill {
    /// The name under which this skill is shown.
    pub fn name(&self) -> (text: &'static str)
        ensures
            text@ == skill_name(*self),
            *self == Skill::Acrobatics ==> text@ == "Acrobatics"@,
            *self == Skill::AnimalHandling ==> text@ == "Animal Handling"@,
            *self == Skill::Arcana ==> text@ == "Arcana"@,
            *self == Skill::Athletics ==> text@ == "Athletics"@,
            *self == Skill::Deception ==> text@ == "Deception"@,
            *self == Skill::History ==> text@ == "History"@,
            *self == Skill::Insight ==> text@ == "Insight"@,
            *self == Skill::Intimidation ==> text@ == "Intimidation"@,
            *self == Skill::Investigation ==> text@ == "Investigation"@,
            *self == Skill::Medicine ==> text@ == "Medicine"@,
            *self == Skill::Nature ==> text@ == "Nature"@,
            *self == Skill::Perception ==> text@ == "Perception"@,
            *self == Skill::Performance ==> text@ == "Performance"@,
            *self == Skill::Persuasion ==> text@ == "Persuasion"@,
            *self == Skill::Religion ==> text@ == "Religion"@,
            *self == Skill::SleightOfHand ==> text@ == "Sleight of Hand"@,
            *self == Skill::Stealth ==> text@ == "Stealth"@,
            *self == Skill::Survival ==> text@ == "Survival"@,
    {
        match self {
            Skill::Acrobatics => "Acrobatics",
            Skill::AnimalHandling => "Animal Handling",
            Skill::Arcana => "Arcana",
            Skill::Athletics => "Athletics",
            Skill::Deception => "Deception",
            Skill::History => "History",
            Skill::Insight => "Insight",
            Skill::Intimidation => "Intimidation",
            Skill::Investigation => "Investigation",
            Skill::Medicine => "Medicine",
            Skill::Nature => "Nature",
            Skill::Perception => "Perception",
            Skill::Performance => "Performance",
            Skill::Persuasion => "Persuasion",
            Skill::Religion => "Religion",
            Skill::SleightOfHand => "Sleight of Hand",
            Skill::Stealth => "Stealth",
            Skill::Survival => "Survival",
        }
    }
}

/// One of the six ability scores.
#[derive(Clone, Copy, Debug, PartialEq, Eq, Structural)]
pub enum Ability {
    Strength,
    Dexterity,
    Constitution,
    Intelligence,
    Wisdom,
    Charisma,
}

/// A polyhedral die used for weapon damage.
#[derive(Clone, Copy, Debug, PartialEq, Eq, Structural)]
pub enum Die {
    D4,
    D6,
    D8,
    D10,
    D12,
    D20,
}

/// Number of faces of a die.
pub open spec fn die_faces(d: Die) -> u8 {
    match d {
        Die::D4 => 4,
        Die::D6 => 6,
        Die::D8 => 8,
        Die::D10 => 10,
        Die::D12 => 12,
        Die::D20 => 20,
    }
}

impl Die {
    /// The number of faces of this die.
    pub fn value(&self) -> (faces: u8)
        ensures
            faces == die_faces(*self),
    {
        match self {
            Die::D4 => 4,
            Die::D6 => 6,
            Die::D8 => 8,
            Die::D10 => 10,
            Die::D12 => 12,
            Die::D20 => 20,
        }
    }
}

/// A weapon, as it is stored. Its weight is kept as the bit pattern of an
/// IEEE-754 single-precision number.
#[derive(Clone, Debug)]
pub struct Weapon {
    pub id: RecordId,
    pub weapon_name: String,
    pub damage_dice: Vec<Die>,
    pub weight_bits: u32,
    pub description: String,
    pub properties: Vec<String>,
    pub damage_type: String,
}

} // verus!
