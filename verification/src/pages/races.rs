use vstd::prelude::*;
use crate::consts::RACE_TABLE;
use crate::controller::{Command, Effect};
use crate::models::{AbilityScoreBonus, BuildError, Race as RaceRecord, RaceBuilder, RacialTrait, Skill};
use crate::record::is_generated_key;
use crate::text::{decimal_in_range, parse_i16, parse_i8, signed_decimal, signed_decimal_string};

verus! {

/// Where the race screen is: showing the picked race, filling in the form
/// for a new one, confirming it, showing why it could not be made, or
/// confirming the deletion of the picked race.
#[derive(Clone, Copy, Debug, PartialEq, Eq, Structural)]
pub enum State {
    View,
    Create,
    ConfirmCreate,
    ErrorCreate,
    Delete,
}

/// The answer of a confirmation dialog in the frame just drawn.
#[derive(Clone, Copy, Debug, PartialEq, Eq, Structural)]
pub enum ConfirmationResult {
    Pending,
    Confirmed,
    Cancelled,
}

/// A labelled score that the user raises or lowers one step at a time.
pub struct Counter {
    pub name: String,
    pub counter: i8,
}

impl Counter {
    /// A counter named `name`, at zero.
    pub fn new(name: &str) -> (c: Self)
        ensures
            c.name@ == name@,
            c.counter == 0,
    {
        Counter { name: String::from_str(name), counter: 0 }
    }

    /// The user pressed `+`.
    pub fn increment(&mut self)
        requires
            old(self).counter < 127,
        ensures
            final(self).counter == old(self).counter + 1,
            final(self).name == old(self).name,
    {
        self.counter = self.counter + 1;
    }

    /// The user pressed `-`.
    pub fn decrement(&mut self)
        requires
            old(self).counter > -128,
        ensures
            final(self).counter == old(self).counter - 1,
            final(self).name == old(self).name,
    {
        self.counter = self.counter - 1;
    }
}

/// The traits are ordered by level.
pub open spec fn sorted_by_level(s: Seq<RacialTrait>) -> bool {
    forall|i: int, j: int| 0 <= i <= j < s.len() ==> #[trigger] s[i].level <= #[trigger] s[j].level
}

/// How many of the traits have a level of at most `level`.
pub open spec fn count_at_most(s: Seq<RacialTrait>, level: i8) -> nat
    decreases s.len(),
{
    if s.len() == 0 {
        0
    } else {
        count_at_most(s.drop_last(), level) + if s.last().level <= level { 1nat } else { 0nat }
    }
}

/// The traits after `t` is added to a list ordered by level and the list is
/// ordered again, keeping traits of equal level in the order they came:
/// `t` goes after every trait of its level or lower.
pub open spec fn with_trait(s: Seq<RacialTrait>, t: RacialTrait) -> Seq<RacialTrait> {
    s.insert(count_at_most(s, t.level) as int, t)
}

proof fn lemma_count_at_most_split(s: Seq<RacialTrait>, level: i8, p: int)
    requires
        0 <= p <= s.len(),
        forall|i: int| 0 <= i < p ==> #[trigger] s[i].level <= level,
        forall|i: int| p <= i < s.len() ==> #[trigger] s[i].level > level,
    ensures
        count_at_most(s, level) == p,
    decreases s.len(),
{
    if s.len() > 0 {
        let q = if p < s.len() { p } else { p - 1 };
        lemma_count_at_most_split(s.drop_last(), level, q);
    }
}

proof fn lemma_count_at_most_bounds(s: Seq<RacialTrait>, level: i8)
    ensures
        count_at_most(s, level) <= s.len(),
    decreases s.len(),
{
    if s.len() > 0 {
        lemma_count_at_most_bounds(s.drop_last(), level);
    }
}

proof fn lemma_count_at_most_prefix(s: Seq<RacialTrait>, level: i8)
    requires
        sorted_by_level(s),
    ensures
        forall|i: int| 0 <= i < count_at_most(s, level) ==> #[trigger] s[i].level <= level,
        forall|i: int| count_at_most(s, level) <= i < s.len() ==> #[trigger] s[i].level > level,
    decreases s.len(),
{
    if s.len() > 0 {
        let init = s.drop_last();
        lemma_count_at_most_prefix(init, level);
        lemma_count_at_most_bounds(init, level);
        let c = count_at_most(init, level);
        if s.last().level <= level && c < init.len() {
            assert(init[c as int].level > level);
            assert(s[c as int].level <= s[s.len() - 1].level);
        }
        assert forall|i: int| 0 <= i < count_at_most(s, level) implies #[trigger] s[i].level <= level by {
            if i < init.len() {
                assert(s[i] == init[i]);
            }
        }
        assert forall|i: int| count_at_most(s, level) <= i < s.len() implies #[trigger] s[i].level > level by {
            if i < init.len() {
                assert(s[i] == init[i]);
            }
        }
    }
}

/// The skills with `k` taken out, the others keeping their order.
pub open spec fn without_skill(s: Seq<Skill>, k: Skill) -> Seq<Skill>
    decreases s.len(),
{
    if s.len() == 0 {
        s
    } else if s.last() == k {
        without_skill(s.drop_last(), k)
    } else {
        without_skill(s.drop_last(), k).push(s.last())
    }
}

/// The skills after the user clicks the check box of `k`: a chosen skill is
/// taken out, another is added at the end.
pub open spec fn toggled(s: Seq<Skill>, k: Skill) -> Seq<Skill> {
    if s.contains(k) {
        without_skill(s, k)
    } else {
        s.push(k)
    }
}

proof fn lemma_without_skill_contains(s: Seq<Skill>, k: Skill, x: Skill)
    ensures
        without_skill(s, k).contains(x) <==> (s.contains(x) && x != k),
    decreases s.len(),
{
    broadcast use vstd::seq_lib::lemma_seq_contains_after_push;
    if s.len() > 0 {
        let init = s.drop_last();
        lemma_without_skill_contains(init, k, x);
        assert(s =~= init.push(s.last()));
    }
}

proof fn lemma_without_skill_no_duplicates(s: Seq<Skill>, k: Skill)
    requires
        s.no_duplicates(),
    ensures
        without_skill(s, k).no_duplicates(),
    decreases s.len(),
{
    if s.len() > 0 {
        let init = s.drop_last();
        assert(init.no_duplicates());
        lemma_without_skill_no_duplicates(init, k);
        if s.last() != k {
            lemma_without_skill_contains(init, k, s.last());
            assert(!init.contains(s.last()));
        }
    }
}

proof fn lemma_without_absent_skill(s: Seq<Skill>, k: Skill)
    requires
        !s.contains(k),
    ensures
        without_skill(s, k) == s,
    decreases s.len(),
{
    if s.len() > 0 {
        let init = s.drop_last();
        assert(!init.contains(k));
        lemma_without_absent_skill(init, k);
        assert(s.last() != k);
        assert(init.push(s.last()) =~= s);
    }
}

/// Clicking a skill's check box twice gives back the same chosen skills.
pub proof fn lemma_toggle_twice_same_skills(s: Seq<Skill>, k: Skill, x: Skill)
    ensures
        toggled(toggled(s, k), k).contains(x) <==> s.contains(x),
{
    broadcast use vstd::seq_lib::lemma_seq_contains_after_push;
    if s.contains(k) {
        let w = without_skill(s, k);
        lemma_without_skill_contains(s, k, k);
        lemma_without_skill_contains(s, k, x);
        lemma_without_skill_contains(w.push(k), k, x);
    } else {
        assert(s.push(k).drop_last() =~= s);
        lemma_without_absent_skill(s, k);
    }
}

/// Clicking a skill's check box never makes a skill appear twice.
pub proof fn lemma_toggle_keeps_skills_distinct(s: Seq<Skill>, k: Skill)
    requires
        s.no_duplicates(),
    ensures
        toggled(s, k).no_duplicates(),
{
    if s.contains(k) {
        lemma_without_skill_no_duplicates(s, k);
    }
}

/// Adding a trait keeps the list in order of level and adds exactly that
/// trait.
pub proof fn lemma_with_trait_sorted(s: Seq<RacialTrait>, t: RacialTrait)
    requires
        sorted_by_level(s),
    ensures
        sorted_by_level(with_trait(s, t)),
        with_trait(s, t).to_multiset() == s.to_multiset().insert(t),
{
    let p = count_at_most(s, t.level) as int;
    lemma_count_at_most_bounds(s, t.level);
    lemma_count_at_most_prefix(s, t.level);
    vstd::seq_lib::to_multiset_insert(s, p, t);
}

/// Racial traits kept in order of level.
pub struct TraitList {
    items: Vec<RacialTrait>,
}

impl View for TraitList {
    type V = Seq<RacialTrait>;

    closed spec fn view(&self) -> Seq<RacialTrait> {
        self.items@
    }
}

impl TraitList {
    #[verifier::type_invariant]
    closed spec fn ordered(self) -> bool {
        sorted_by_level(self.items@)
    }

    /// An empty list.
    pub fn new() -> (l: Self)
        ensures
            l@ == Seq::<RacialTrait>::empty(),
    {
        TraitList { items: Vec::new() }
    }

    /// The traits, in order of level.
    pub fn as_slice(&self) -> (s: &[RacialTrait])
        ensures
            s@ == self@,
            sorted_by_level(s@),
    {
        proof {
            use_type_invariant(self);
        }
        self.items.as_slice()
    }

    /// Adds `t` after every trait of its level or lower, as appending it and
    /// ordering the list again by level, keeping traits of equal level in
    /// the order they came, would.
    pub fn insert(&mut self, t: RacialTrait)
        ensures
            final(self)@ == with_trait(old(self)@, t),
            sorted_by_level(final(self)@),
    {
        proof {
            use_type_invariant(&*self);
        }
        let mut items = Vec::new();
        std::mem::swap(&mut items, &mut self.items);
        let ghost old_items = items@;
        let mut p: usize = 0;
        while p < items.len() && items[p].level <= t.level
            invariant
                items@ == old_items,
                sorted_by_level(old_items),
                p <= items.len(),
                forall|i: int| 0 <= i < p ==> #[trigger] items@[i].level <= t.level,
            decreases items.len() - p,
        {
            p = p + 1;
        }
        proof {
            lemma_count_at_most_split(old_items, t.level, p as int);
        }
        items.insert(p, t);
        assert(sorted_by_level(items@));
        self.items = items;
    }

    /// Removes every trait.
    pub fn clear(&mut self)
        ensures
            final(self)@ == Seq::<RacialTrait>::empty(),
    {
        self.items = Vec::new();
    }
}

/// What the user has typed and picked so far in the form for a new race.
pub struct TempRace {
    pub race_name: String,
    pub move_speed: String,
    pub strength: Counter,
    pub dexterity: Counter,
    pub constitution: Counter,
    pub intelligence: Counter,
    pub wisdom: Counter,
    pub charisma: Counter,
    pub languages: Vec<String>,
    pub skills: Vec<Skill>,
    pub traits: TraitList,
    pub new_language_input: String,
    pub trait_name: String,
    pub trait_description: String,
    pub trait_level: String,
}

/// `new` is the blank form that clearing `old` leaves: every text and list
/// empty and every counter at zero, under the same names.
pub open spec fn cleared_form(old: TempRace, new: TempRace) -> bool {
    &&& new.race_name@.len() == 0
    &&& new.move_speed@.len() == 0
    &&& new.strength.counter == 0 && new.strength.name == old.strength.name
    &&& new.dexterity.counter == 0 && new.dexterity.name == old.dexterity.name
    &&& new.constitution.counter == 0 && new.constitution.name == old.constitution.name
    &&& new.intelligence.counter == 0 && new.intelligence.name == old.intelligence.name
    &&& new.wisdom.counter == 0 && new.wisdom.name == old.wisdom.name
    &&& new.charisma.counter == 0 && new.charisma.name == old.charisma.name
    &&& new.languages@.len() == 0
    &&& new.skills@.len() == 0
    &&& new.traits@.len() == 0
    &&& new.new_language_input@.len() == 0
    &&& new.trait_name@.len() == 0
    &&& new.trait_description@.len() == 0
    &&& new.trait_level@.len() == 0
}

/// The ability score bonus that the six counters of the form give.
pub open spec fn form_bonus(t: TempRace) -> AbilityScoreBonus {
    AbilityScoreBonus {
        strength: t.strength.counter,
        dexterity: t.dexterity.counter,
        constitution: t.constitution.counter,
        intelligence: t.intelligence.counter,
        wisdom: t.wisdom.counter,
        charisma: t.charisma.counter,
    }
}

/// The form's trait fields make a trait: a name and a description are
/// typed and the level reads as an `i8`.
pub open spec fn trait_ready(t: TempRace) -> bool {
    &&& t.trait_name@.len() > 0
    &&& t.trait_description@.len() > 0
    &&& decimal_in_range(t.trait_level@, -128, 127) is Some
}

/// The trait that the form's trait fields describe.
pub open spec fn form_trait(t: TempRace) -> RacialTrait {
    RacialTrait {
        level: decimal_in_range(t.trait_level@, -128, 127).unwrap() as i8,
        trait_name: t.trait_name,
        description: t.trait_description,
    }
}

/// The move speed typed in the form, or 0 when it does not read as an `i16`.
pub open spec fn form_move_speed(t: TempRace) -> i16 {
    match decimal_in_range(t.move_speed@, -32768, 32767) {
        Some(v) => v as i16,
        None => 0,
    }
}

/// Each ability of the form's bonus is the counter of that same ability.
pub proof fn lemma_form_bonus_per_ability(t: TempRace)
    ensures
        form_bonus(t).strength == t.strength.counter,
        form_bonus(t).dexterity == t.dexterity.counter,
        form_bonus(t).constitution == t.constitution.counter,
        form_bonus(t).intelligence == t.intelligence.counter,
        form_bonus(t).wisdom == t.wisdom.counter,
        form_bonus(t).charisma == t.charisma.counter,
{
}

/// A trait is added only when both a name and a description are typed and
/// the level reads as an `i8`.
pub proof fn lemma_trait_ready_needs_name_and_description(t: TempRace)
    ensures
        trait_ready(t) ==> t.trait_name@.len() > 0 && t.trait_description@.len() > 0,
        t.trait_name@.len() == 0 ==> !trait_ready(t),
        t.trait_description@.len() == 0 ==> !trait_ready(t),
        decimal_in_range(t.trait_level@, -128, 127) is None ==> !trait_ready(t),
{
}

/// The trait made from the form carries the typed name, the typed
/// description and the level read from the level field.
pub proof fn lemma_form_trait_keeps_typed_text(t: TempRace)
    requires
        trait_ready(t),
    ensures
        form_trait(t).trait_name == t.trait_name,
        form_trait(t).description == t.trait_description,
        decimal_in_range(t.trait_level@, -128, 127) == Some(form_trait(t).level as int),
{
}

impl TempRace {
    /// Empties every text and list of the form and sets every counter back
    /// to zero.
    pub fn clear(&mut self)
        ensures
            cleared_form(*old(self), *final(self)),
    {
        self.race_name = String::new();
        self.move_speed = String::new();
        self.strength.counter = 0;
        self.dexterity.counter = 0;
        self.constitution.counter = 0;
        self.intelligence.counter = 0;
        self.wisdom.counter = 0;
        self.charisma.counter = 0;
        self.languages = Vec::new();
        self.skills = Vec::new();
        self.traits.clear();
        self.new_language_input = String::new();
        self.trait_name = String::new();
        self.trait_level = String::new();
        self.trait_description = String::new();
    }

    /// The ability score bonus that the six counters give.
    pub fn ability_bonus(&self) -> (b: AbilityScoreBonus)
        ensures
            b == form_bonus(*self),
            b.strength == self.strength.counter,
            b.dexterity == self.dexterity.counter,
            b.constitution == self.constitution.counter,
            b.intelligence == self.intelligence.counter,
            b.wisdom == self.wisdom.counter,
            b.charisma == self.charisma.counter,
    {
        AbilityScoreBonus {
            strength: self.strength.counter,
            dexterity: self.dexterity.counter,
            constitution: self.constitution.counter,
            intelligence: self.intelligence.counter,
            wisdom: self.wisdom.counter,
            charisma: self.charisma.counter,
        }
    }

    /// The user pressed "add" under the trait fields: when a name and a
    /// description are typed and the level reads as an `i8`, the trait
    /// joins the list in order of level and the three fields are emptied;
    /// otherwise nothing changes.
    pub fn add_trait(&mut self)
        ensures
            trait_ready(*old(self)) ==> {
                &&& final(self).traits@ == with_trait(old(self).traits@, form_trait(*old(self)))
                &&& final(self).trait_name@.len() == 0
                &&& final(self).trait_level@.len() == 0
                &&& final(self).trait_description@.len() == 0
                &&& *final(self) == (TempRace {
                    traits: final(self).traits,
                    trait_name: final(self).trait_name,
                    trait_level: final(self).trait_level,
                    trait_description: final(self).trait_description,
                    ..*old(self)
                })
            },
            !trait_ready(*old(self)) ==> *final(self) == *old(self),
            old(self).trait_name@.len() == 0 ==> *final(self) == *old(self),
            old(self).trait_description@.len() == 0 ==> *final(self) == *old(self),
            decimal_in_range(old(self).trait_level@, -128, 127) is None ==> *final(self) == *old(self),
            decimal_in_range(old(self).trait_level@, -128, 127) matches Some(level) ==> (
                old(self).trait_name@.len() > 0 && old(self).trait_description@.len() > 0 ==> {
                &&& final(self).traits@ == with_trait(
                    old(self).traits@,
                    RacialTrait {
                        level: level as i8,
                        trait_name: old(self).trait_name,
                        description: old(self).trait_description,
                    },
                )
                &&& final(self).traits@.to_multiset() == old(self).traits@.to_multiset().insert(
                    RacialTrait {
                        level: level as i8,
                        trait_name: old(self).trait_name,
                        description: old(self).trait_description,
                    },
                )
                &&& sorted_by_level(final(self).traits@)
            }),
    {
        if !(self.trait_name.as_str().is_empty() || self.trait_description.as_str().is_empty()) {
            match parse_i8(self.trait_level.as_str()) {
                Some(level) => {
                    let t = RacialTrait {
                        trait_name: self.trait_name.clone(),
                        description: self.trait_description.clone(),
                        level,
                    };
                    proof {
                        use_type_invariant(&self.traits);
                        lemma_with_trait_sorted(self.traits@, t);
                    }
                    self.traits.insert(t);
                    self.trait_name = String::new();
                    self.trait_level = String::new();
                    self.trait_description = String::new();
                },
                None => {},
            }
        }
    }

    /// The user pressed "add" under the language field: a typed language
    /// joins the list and the field is emptied; an empty field changes
    /// nothing.
    pub fn add_language(&mut self)
        ensures
            old(self).new_language_input@.len() > 0 ==> {
                &&& final(self).languages@ == old(self).languages@.push(old(self).new_language_input)
                &&& final(self).new_language_input@.len() == 0
                &&& *final(self) == (TempRace {
                    languages: final(self).languages,
                    new_language_input: final(self).new_language_input,
                    ..*old(self)
                })
            },
            old(self).new_language_input@.len() == 0 ==> *final(self) == *old(self),
    {
        if !self.new_language_input.as_str().is_empty() {
            self.languages.push(self.new_language_input.clone());
            self.new_language_input = String::new();
        }
    }

    /// The user clicked the check box of `skill`: a chosen skill is taken
    /// out, another is added.
    pub fn toggle_skill(&mut self, skill: Skill)
        ensures
            final(self).skills@ == toggled(old(self).skills@, skill),
            *final(self) == (TempRace { skills: final(self).skills, ..*old(self) }),
    {
        let mut found = false;
        let mut i: usize = 0;
        while i < self.skills.len()
            invariant
                i <= self.skills.len(),
                found == (exists|j: int| 0 <= j < i && self.skills@[j] == skill),
            decreases self.skills.len() - i,
        {
            if self.skills[i] == skill {
                found = true;
            }
            i = i + 1;
        }
        if found {
            let mut kept: Vec<Skill> = Vec::new();
            let mut j: usize = 0;
            while j < self.skills.len()
                invariant
                    j <= self.skills.len(),
                    kept@ == without_skill(self.skills@.take(j as int), skill),
                decreases self.skills.len() - j,
            {
                assert(self.skills@.take(j + 1).drop_last() =~= self.skills@.take(j as int));
                if self.skills[j] != skill {
                    kept.push(self.skills[j]);
                }
                j = j + 1;
            }
            assert(self.skills@.take(self.skills.len() as int) =~= self.skills@);
            self.skills = kept;
        } else {
            self.skills.push(skill);
        }
    }
}

/// The line that lists a trait: its level in brackets, then its name, like
/// `  - [1] dark vision`.
pub fn trait_label(t: &RacialTrait) -> (text: String)
    ensures
        text@ == "  - ["@ + signed_decimal(t.level as int) + "] "@ + t.trait_name@,
{
    let level = signed_decimal_string(t.level as i64);
    String::from_str("  - [").concat(level.as_str()).concat("] ").concat(t.trait_name.as_str())
}

/// The line that shows a race's move speed, like `  - 30 ft.`.
pub fn move_speed_label(speed: i16) -> (text: String)
    ensures
        text@ == "  - "@ + signed_decimal(speed as int) + " ft."@,
{
    let number = signed_decimal_string(speed as i64);
    String::from_str("  - ").concat(number.as_str()).concat(" ft.")
}

/// The race screen: where it is, and the form for a new race.
pub struct Race {
    pub state: State,
    pub temp: TempRace,
    pub build_status: Result<(), BuildError>,
}

/// `new` is the form after a new race was made from `old`: the name, the
/// lists and the trait and language fields are emptied, while the counters
/// and the move speed keep what was entered.
pub open spec fn emptied_after_create(old: TempRace, new: TempRace) -> bool {
    &&& new.race_name@.len() == 0
    &&& new.languages@.len() == 0
    &&& new.skills@.len() == 0
    &&& new.traits@.len() == 0
    &&& new.new_language_input@.len() == 0
    &&& new.trait_name@.len() == 0
    &&& new.trait_description@.len() == 0
    &&& new.trait_level@.len() == 0
    &&& new == (TempRace {
        race_name: new.race_name,
        languages: new.languages,
        skills: new.skills,
        traits: new.traits,
        new_language_input: new.new_language_input,
        trait_name: new.trait_name,
        trait_description: new.trait_description,
        trait_level: new.trait_level,
        ..old
    })
}

/// `race` is the race that the form `t` describes, under a fresh record
/// address in the race table.
pub open spec fn race_from_form(race: RaceRecord, t: TempRace) -> bool {
    &&& race.id.table@ == RACE_TABLE@
    &&& is_generated_key(race.id.key@)
    &&& race.race_name == t.race_name
    &&& race.move_speed == form_move_speed(t)
    &&& race.ability_score_increase == form_bonus(t)
    &&& race.racial_traits@ == t.traits@
    &&& race.skill_proficiency_bonus@ == t.skills@
    &&& race.languages@ == t.languages@
}

/// A race made from the form has, for each ability, the counter of that
/// ability as its bonus, and exactly the form's traits, in the form's order
/// (so ordered by level), its skills and its languages.
pub proof fn lemma_race_from_form_copies(race: RaceRecord, t: TempRace)
    requires
        race_from_form(race, t),
        sorted_by_level(t.traits@),
    ensures
        race.ability_score_increase.strength == t.strength.counter,
        race.ability_score_increase.dexterity == t.dexterity.counter,
        race.ability_score_increase.constitution == t.constitution.counter,
        race.ability_score_increase.intelligence == t.intelligence.counter,
        race.ability_score_increase.wisdom == t.wisdom.counter,
        race.ability_score_increase.charisma == t.charisma.counter,
        race.racial_traits@.len() == t.traits@.len(),
        forall|i: int| 0 <= i < t.traits@.len() ==> #[trigger] race.racial_traits@[i] == t.traits@[i],
        sorted_by_level(race.racial_traits@),
        race.race_name == t.race_name,
        race.skill_proficiency_bonus@ == t.skills@,
        race.languages@ == t.languages@,
{
}

impl Race {
    /// The race screen showing the picked race, with a blank form whose
    /// move speed reads 30.
    pub fn new() -> (r: Self)
        ensures
            r.state == State::View,
            r.build_status is Ok,
            r.temp.race_name@.len() == 0,
            r.temp.move_speed@ == "30"@,
            r.temp.strength.name@ == "STR"@ && r.temp.strength.counter == 0,
            r.temp.dexterity.name@ == "DEX"@ && r.temp.dexterity.counter == 0,
            r.temp.constitution.name@ == "CON"@ && r.temp.constitution.counter == 0,
            r.temp.intelligence.name@ == "INT"@ && r.temp.intelligence.counter == 0,
            r.temp.wisdom.name@ == "WIS"@ && r.temp.wisdom.counter == 0,
            r.temp.charisma.name@ == "CHA"@ && r.temp.charisma.counter == 0,
            r.temp.languages@.len() == 0,
            r.temp.skills@.len() == 0,
            r.temp.traits@.len() == 0,
            r.temp.new_language_input@.len() == 0,
            r.temp.trait_name@.len() == 0,
            r.temp.trait_description@.len() == 0,
            r.temp.trait_level@.len() == 0,
    {
        Race {
            state: State::View,
            build_status: Ok(()),
            temp: TempRace {
                race_name: String::new(),
                move_speed: String::from_str("30"),
                strength: Counter::new("STR"),
                dexterity: Counter::new("DEX"),
                constitution: Counter::new("CON"),
                intelligence: Counter::new("INT"),
                wisdom: Counter::new("WIS"),
                charisma: Counter::new("CHA"),
                languages: Vec::new(),
                skills: Vec::new(),
                traits: TraitList::new(),
                trait_description: String::new(),
                new_language_input: String::new(),
                trait_name: String::new(),
                trait_level: String::new(),
            },
        }
    }

    /// The user pressed "+" under the list of races: the form opens.
    pub fn start_create(&mut self)
        ensures
            final(self).state == State::Create && final(self).temp == old(self).temp
                && final(self).build_status == old(self).build_status,
    {
        self.state = State::Create;
    }

    /// The user pressed "Delete" on the picked race: the screen asks for
    /// confirmation.
    pub fn start_delete(&mut self)
        ensures
            final(self).state == State::Delete && final(self).temp == old(self).temp
                && final(self).build_status == old(self).build_status,
    {
        self.state = State::Delete;
    }

    /// The user pressed "Confirm" in the form: the screen asks for
    /// confirmation.
    pub fn press_confirm(&mut self)
        ensures
            final(self).state == State::ConfirmCreate && final(self).temp == old(self).temp
                && final(self).build_status == old(self).build_status,
    {
        self.state = State::ConfirmCreate;
    }

    /// The user pressed "Exit" in the form: the form is cleared and closed.
    pub fn press_exit(&mut self)
        ensures
            final(self).state == State::View,
            cleared_form(old(self).temp, final(self).temp),
            final(self).build_status == old(self).build_status,
    {
        self.temp.clear();
        self.state = State::View;
    }

    /// Handles the answer of the dialog that confirms the deletion of the
    /// picked race, `selected`. Only while the screen asks for it: a
    /// confirmed deletion clears the form, returns to the view and asks the
    /// store to delete the race, forgets the pick and asks for the list
    /// again; a cancelled one returns to the view.
    pub fn delete_step(&mut self, result: ConfirmationResult, selected: &Option<RaceRecord>) -> (effects: Vec<Effect>)
        requires
            old(self).state == State::Delete && result == ConfirmationResult::Confirmed ==> selected is Some,
        ensures
            old(self).state != State::Delete || result == ConfirmationResult::Pending ==> {
                &&& *final(self) == *old(self)
                &&& effects@.len() == 0
            },
            old(self).state == State::Delete && result == ConfirmationResult::Cancelled ==> {
                &&& final(self).state == State::View && final(self).temp == old(self).temp
                && final(self).build_status == old(self).build_status
                &&& effects@.len() == 0
            },
            old(self).state == State::Delete && result == ConfirmationResult::Confirmed ==> {
                &&& final(self).state == State::View
                &&& cleared_form(old(self).temp, final(self).temp)
                &&& final(self).build_status == old(self).build_status
                &&& effects@ == seq![
                    Effect::Send(Command::DeleteRace(selected.unwrap().id)),
                    Effect::ClearSelectedRace,
                    Effect::Send(Command::LoadRaces),
                ]
            },
    {
        let mut effects: Vec<Effect> = Vec::new();
        if self.state == State::Delete {
            match result {
                ConfirmationResult::Pending => {},
                ConfirmationResult::Confirmed => {
                    self.state = State::View;
                    self.temp.clear();
                    let id = match selected {
                        Some(race) => race.id.clone(),
                        None => return effects,
                    };
                    effects.push(Effect::Send(Command::DeleteRace(id)));
                    effects.push(Effect::ClearSelectedRace);
                    effects.push(Effect::Send(Command::LoadRaces));
                },
                ConfirmationResult::Cancelled => {
                    self.state = State::View;
                },
            }
        }
        effects
    }

    /// Handles the answer of the dialog that confirms a new race. Only
    /// while the screen asks for it. A confirmed race is built from the form
    /// under a fresh address in the race table, with a move speed of 0 when
    /// the typed one does not read as a number. When it has a name, the
    /// store is asked to create it, the form is emptied and the screen
    /// returns to the view; without a name the screen shows the error. In
    /// both cases the store is then asked for the list again. A cancelled
    /// confirmation returns to the form.
    pub fn confirm_create_step(&mut self, result: ConfirmationResult) -> (effects: Vec<Effect>)
        ensures
            old(self).state != State::ConfirmCreate || result == ConfirmationResult::Pending ==> {
                &&& *final(self) == *old(self)
                &&& effects@.len() == 0
            },
            old(self).state == State::ConfirmCreate && result == ConfirmationResult::Cancelled ==> {
                &&& final(self).state == State::Create && final(self).temp == old(self).temp
                && final(self).build_status == old(self).build_status
                &&& effects@.len() == 0
            },
            old(self).state == State::ConfirmCreate && result == ConfirmationResult::Confirmed
                && old(self).temp.race_name@.len() > 0 ==> {
                &&& final(self).state == State::View
                &&& emptied_after_create(old(self).temp, final(self).temp)
                &&& final(self).build_status == old(self).build_status
                &&& effects@.len() == 2
                &&& effects@[0] matches Effect::Send(Command::CreateRace(race))
                    && race_from_form(race, old(self).temp)
                    && race.id.table@ == RACE_TABLE@
                    && is_generated_key(race.id.key@)
                    && race.race_name == old(self).temp.race_name
                    && (decimal_in_range(old(self).temp.move_speed@, -32768, 32767) matches Some(v) ==> race.move_speed as int == v)
                    && (decimal_in_range(old(self).temp.move_speed@, -32768, 32767) is None ==> race.move_speed == 0)
                    && race.ability_score_increase.strength == old(self).temp.strength.counter
                    && race.ability_score_increase.dexterity == old(self).temp.dexterity.counter
                    && race.ability_score_increase.constitution == old(self).temp.constitution.counter
                    && race.ability_score_increase.intelligence == old(self).temp.intelligence.counter
                    && race.ability_score_increase.wisdom == old(self).temp.wisdom.counter
                    && race.ability_score_increase.charisma == old(self).temp.charisma.counter
                    && race.racial_traits@ == old(self).temp.traits@
                    && sorted_by_level(race.racial_traits@)
                    && race.skill_proficiency_bonus@ == old(self).temp.skills@
                    && race.languages@ == old(self).temp.languages@
                &&& effects@[1] == Effect::Send(Command::LoadRaces)
            },
            old(self).state == State::ConfirmCreate && result == ConfirmationResult::Confirmed
                && old(self).temp.race_name@.len() == 0 ==> {
                &&& final(self).state == State::ErrorCreate
                &&& final(self).temp == old(self).temp
                &&& final(self).build_status matches Err(e) && e.field() == "race_name"@
                &&& effects@ == seq![Effect::Send(Command::LoadRaces)]
            },
    {
        let mut effects: Vec<Effect> = Vec::new();
        if self.state != State::ConfirmCreate {
            return effects;
        }
        match result {
            ConfirmationResult::Pending => {},
            ConfirmationResult::Cancelled => {
                self.state = State::Create;
            },
            ConfirmationResult::Confirmed => {
                let move_speed = match parse_i16(self.temp.move_speed.as_str()) {
                    Some(speed) => speed,
                    None => 0,
                };
                let mut builder = RaceBuilder::new();
                builder
                    .id(RACE_TABLE)
                    .race_name(self.temp.race_name.clone())
                    .move_speed(move_speed)
                    .ability_score_increase(self.temp.ability_bonus());
                let ghost id = builder.spec_id();
                let traits = self.temp.traits.as_slice();
                let mut i: usize = 0;
                while i < traits.len()
                    invariant
                        i <= traits.len(),
                        traits@ == self.temp.traits@,
                        builder.spec_id() == id,
                        builder.spec_race_name() == Some(self.temp.race_name),
                        builder.spec_move_speed() == Some(move_speed),
                        builder.spec_ability_score_increase() == Some(form_bonus(self.temp)),
                        builder.spec_racial_traits() == traits@.take(i as int),
                        builder.spec_skill_proficiency_bonus().len() == 0,
                        builder.spec_languages().len() == 0,
                    decreases traits.len() - i,
                {
                    assert(traits@.take(i + 1) =~= traits@.take(i as int).push(traits@[i as int]));
                    builder.add_racial_trait(traits[i].clone());
                    i = i + 1;
                }
                assert(traits@.take(traits.len() as int) =~= traits@);
                let mut j: usize = 0;
                while j < self.temp.languages.len()
                    invariant
                        j <= self.temp.languages.len(),
                        builder.spec_id() == id,
                        builder.spec_race_name() == Some(self.temp.race_name),
                        builder.spec_move_speed() == Some(move_speed),
                        builder.spec_ability_score_increase() == Some(form_bonus(self.temp)),
                        builder.spec_racial_traits() == self.temp.traits@,
                        builder.spec_skill_proficiency_bonus().len() == 0,
                        builder.spec_languages() == self.temp.languages@.take(j as int),
                    decreases self.temp.languages.len() - j,
                {
                    assert(self.temp.languages@.take(j + 1)
                        =~= self.temp.languages@.take(j as int).push(self.temp.languages@[j as int]));
                    builder.add_language(self.temp.languages[j].clone());
                    j = j + 1;
                }
                assert(self.temp.languages@.take(self.temp.languages.len() as int) =~= self.temp.languages@);
                let mut k: usize = 0;
                while k < self.temp.skills.len()
                    invariant
                        k <= self.temp.skills.len(),
                        builder.spec_id() == id,
                        builder.spec_race_name() == Some(self.temp.race_name),
                        builder.spec_move_speed() == Some(move_speed),
                        builder.spec_ability_score_increase() == Some(form_bonus(self.temp)),
                        builder.spec_racial_traits() == self.temp.traits@,
                        builder.spec_languages() == self.temp.languages@,
                        builder.spec_skill_proficiency_bonus() == self.temp.skills@.take(k as int),
                    decreases self.temp.skills.len() - k,
                {
                    assert(self.temp.skills@.take(k + 1)
                        =~= self.temp.skills@.take(k as int).push(self.temp.skills@[k as int]));
                    builder.add_skill_proficiency(self.temp.skills[k]);
                    k = k + 1;
                }
                assert(self.temp.skills@.take(self.temp.skills.len() as int) =~= self.temp.skills@);
                match builder.build() {
                    Ok(race) => {
                        effects.push(Effect::Send(Command::CreateRace(race)));
                        self.temp.skills = Vec::new();
                        self.temp.languages = Vec::new();
                        self.temp.race_name = String::new();
                        self.temp.new_language_input = String::new();
                        self.temp.trait_description = String::new();
                        self.temp.trait_name = String::new();
                        self.temp.trait_level = String::new();
                        self.temp.traits.clear();
                        self.state = State::View;
                    },
                    Err(err) => {
                        self.state = State::ErrorCreate;
                        self.build_status = Err(err);
                    },
                }
                effects.push(Effect::Send(Command::LoadRaces));
            },
        }
        effects
    }

    /// The text of the error that stopped the last new race, if one did.
    pub fn build_error_message(&self) -> (text: Option<String>)
        ensures
            match self.build_status {
                Ok(_) => text is None,
                Err(e) => text matches Some(m) && m@ == "Missing required field: "@ + e.field(),
            },
    {
        match &self.build_status {
            Ok(_) => None,
            Err(e) => Some(e.message()),
        }
    }

    /// The user closed the dialog that shows why a new race could not be
    /// made: the form shows again. Only while that dialog is shown.
    pub fn error_closed(&mut self)
        ensures
            old(self).state == State::ErrorCreate ==> final(self).state == State::Create && final(self).temp == old(self).temp
                && final(self).build_status == old(self).build_status,
            old(self).state != State::ErrorCreate ==> *final(self) == *old(self),
    {
        if self.state == State::ErrorCreate {
            self.state = State::Create;
        }
    }
}

} // verus!
