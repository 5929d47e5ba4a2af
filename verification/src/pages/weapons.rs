use vstd::prelude::*;
use crate::consts::WEAPON_TABLE;
use crate::controller::{Command, Effect};
use crate::models::{die_faces, Die, Weapon as WeaponRecord};
use crate::record::{is_generated_key, RecordId};
use crate::text::{decimal, decimal_string};

verus! {

broadcast use vstd::seq_lib::group_to_multiset_ensures;

/// The kinds of die, ordered by their number of faces.
pub open spec fn die_kinds() -> Seq<Die> {
    seq![Die::D4, Die::D6, Die::D8, Die::D10, Die::D12, Die::D20]
}

/// How many of `dice` are of kind `d`.
pub open spec fn count_die(dice: Seq<Die>, d: Die) -> nat
    decreases dice.len(),
{
    if dice.len() == 0 {
        0
    } else {
        count_die(dice.drop_last(), d) + if dice.last() == d { 1nat } else { 0nat }
    }
}

/// `count` dice of kind `d`, written like `2d8`.
pub open spec fn dice_term(count: nat, d: Die) -> Seq<char> {
    decimal(count) + "d"@ + decimal(die_faces(d) as nat)
}

/// The terms for the first `k` kinds of die, leaving out the kinds of which
/// `dice` holds none.
pub open spec fn dice_terms(dice: Seq<Die>, k: nat) -> Seq<Seq<char>>
    decreases k,
{
    if k == 0 {
        seq![]
    } else {
        let rest = dice_terms(dice, (k - 1) as nat);
        let d = die_kinds()[k - 1];
        if count_die(dice, d) > 0 {
            rest.push(dice_term(count_die(dice, d), d))
        } else {
            rest
        }
    }
}

/// The parts, in order, with `sep` between each two of them.
pub open spec fn join(parts: Seq<Seq<char>>, sep: Seq<char>) -> Seq<char>
    decreases parts.len(),
{
    if parts.len() == 0 {
        seq![]
    } else if parts.len() == 1 {
        parts[0]
    } else {
        join(parts.drop_last(), sep) + sep + parts.last()
    }
}

/// How a set of damage dice is shown: a dash when there are none, else one
/// term per kind of die present, like `2d8 + 1d6`, smallest die first.
pub open spec fn dice_summary(dice: Seq<Die>) -> Seq<char> {
    if dice.len() == 0 {
        "—"@
    } else {
        join(dice_terms(dice, 6), " + "@)
    }
}

proof fn lemma_count_die_le_len(dice: Seq<Die>, d: Die)
    ensures
        count_die(dice, d) <= dice.len(),
    decreases dice.len(),
{
    if dice.len() > 0 {
        lemma_count_die_le_len(dice.drop_last(), d);
    }
}

proof fn lemma_count_die_is_multiplicity(dice: Seq<Die>, d: Die)
    ensures
        count_die(dice, d) == dice.to_multiset().count(d),
    decreases dice.len(),
{
    if dice.len() > 0 {
        lemma_count_die_is_multiplicity(dice.drop_last(), d);
        assert(dice.drop_last().push(dice.last()) =~= dice);
    }
}

proof fn lemma_dice_terms_same_counts(a: Seq<Die>, b: Seq<Die>, k: nat)
    requires
        forall|d: Die| count_die(a, d) == count_die(b, d),
    ensures
        dice_terms(a, k) == dice_terms(b, k),
    decreases k,
{
    if k > 0 {
        lemma_dice_terms_same_counts(a, b, (k - 1) as nat);
        let d = die_kinds()[k - 1];
        assert(count_die(a, d) == count_die(b, d));
    }
}

/// The damage summary depends only on which dice there are and how many of
/// each, not on their order: two lists holding the same dice are shown the
/// same.
pub proof fn lemma_dice_summary_ignores_order(a: Seq<Die>, b: Seq<Die>)
    requires
        a.to_multiset() == b.to_multiset(),
    ensures
        dice_summary(a) == dice_summary(b),
{
    assert forall|d: Die| count_die(a, d) == count_die(b, d) by {
        lemma_count_die_is_multiplicity(a, d);
        lemma_count_die_is_multiplicity(b, d);
    }
    assert(a.len() == a.to_multiset().len());
    assert(b.len() == b.to_multiset().len());
    lemma_dice_terms_same_counts(a, b, 6);
}

fn die_index(d: Die) -> (k: usize)
    ensures
        k < 6,
        die_kinds()[k as int] == d,
{
    match d {
        Die::D4 => 0,
        Die::D6 => 1,
        Die::D8 => 2,
        Die::D10 => 3,
        Die::D12 => 4,
        Die::D20 => 5,
    }
}

fn die_of_index(k: usize) -> (d: Die)
    requires
        k < 6,
    ensures
        d == die_kinds()[k as int],
{
    if k == 0 { Die::D4 }
    else if k == 1 { Die::D6 }
    else if k == 2 { Die::D8 }
    else if k == 3 { Die::D10 }
    else if k == 4 { Die::D12 }
    else { Die::D20 }
}

/// Shows a set of damage dice: a dash when there are none, else the count
/// of each kind of die present, smallest die first, like `2d8 + 1d6`
/// ordered as `1d6 + 2d8`.
pub fn format_damage_dice(dice: &[Die]) -> (text: String)
    ensures
        text@ == dice_summary(dice@),
{
    if dice.len() == 0 {
        return String::from_str("—");
    }
    let mut counts: Vec<usize> = vec![0, 0, 0, 0, 0, 0];
    let mut i: usize = 0;
    while i < dice.len()
        invariant
            i <= dice.len(),
            counts.len() == 6,
            forall|j: int| 0 <= j < 6 ==> counts[j] == count_die(dice@.take(i as int), #[trigger] die_kinds()[j]),
        decreases dice.len() - i,
    {
        let k = die_index(dice[i]);
        assert(dice@.take(i + 1).drop_last() =~= dice@.take(i as int));
        proof {
            lemma_count_die_le_len(dice@.take(i as int), dice[i as int]);
        }
        let c = counts[k];
        counts.set(k, c + 1);
        i = i + 1;
    }
    assert(dice@.take(dice.len() as int) =~= dice@);
    let mut text = String::new();
    let mut any_term = false;
    let mut k: usize = 0;
    while k < 6
        invariant
            k <= 6,
            counts.len() == 6,
            forall|j: int| 0 <= j < 6 ==> counts[j] == count_die(dice@, #[trigger] die_kinds()[j]),
            text@ == join(dice_terms(dice@, k as nat), " + "@),
            any_term == (dice_terms(dice@, k as nat).len() > 0),
        decreases 6 - k,
    {
        let d = die_of_index(k);
        let c = counts[k];
        let ghost before = dice_terms(dice@, k as nat);
        if c > 0 {
            if any_term {
                text.append(" + ");
            }
            let count_text = decimal_string(c as u64);
            text.append(count_text.as_str());
            text.append("d");
            let faces_text = decimal_string(d.value() as u64);
            text.append(faces_text.as_str());
            assert(before.push(dice_term(c as nat, d)).drop_last() =~= before);
            any_term = true;
        }
        k = k + 1;
    }
    text
}

/// Where the weapon screen is: showing the picked weapon, filling in the
/// form for a new one, confirming it, showing an error, or confirming the
/// deletion of the picked weapon.
#[derive(Clone, Copy, Debug, PartialEq, Eq, Structural)]
pub enum State {
    View,
    Create,
    ConfirmCreate,
    ErrorCreate,
    Delete,
}

/// The answer of a confirmation dialog in the frame just drawn.
#[derive(Clone, Copy, Debug, PartialEq, Eq, Structural)]
pub enum ConfirmationResult {
    Pending,
    Confirmed,
    Cancelled,
}

/// What the user has typed so far in the form for a new weapon. The weight
/// is the bit pattern of an IEEE-754 single-precision number.
pub struct TempWeapon {
    pub weapon_name: String,
    pub damage_dice: Vec<Die>,
    pub weight_bits: u32,
    pub description: String,
    pub properties: Vec<String>,
    pub damage_type: String,
}

/// The form is blank: every text and list empty and the weight zero.
pub open spec fn blank_weapon_form(t: TempWeapon) -> bool {
    &&& t.weapon_name@.len() == 0
    &&& t.damage_dice@.len() == 0
    &&& t.weight_bits == 0
    &&& t.description@.len() == 0
    &&& t.properties@.len() == 0
    &&& t.damage_type@.len() == 0
}

impl TempWeapon {
    /// Empties every text and list of the form and sets the weight to zero.
    pub fn clear(&mut self)
        ensures
            blank_weapon_form(*final(self)),
    {
        self.weapon_name = String::new();
        self.damage_dice = Vec::new();
        self.weight_bits = 0;
        self.description = String::new();
        self.properties = Vec::new();
        self.damage_type = String::new();
    }
}

/// The weapon that the "+" under the list of weapons stores: two d8 and a
/// d6 of damage, a weight of 2.0, two properties, under a fresh address in
/// the weapon table.
pub open spec fn is_placeholder_weapon(w: WeaponRecord) -> bool {
    &&& w.id.table@ == WEAPON_TABLE@
    &&& is_generated_key(w.id.key@)
    &&& w.weapon_name@ == "test"@
    &&& w.damage_dice@ == seq![Die::D8, Die::D8, Die::D6]
    &&& w.weight_bits == 0x4000_0000
    &&& w.description@ == "descriptoion herer"@
    &&& w.properties@.len() == 2
    &&& w.properties@[0]@ == "one"@
    &&& w.properties@[1]@ == "two"@
    &&& w.damage_type@ == "idk something"@
}

/// Makes the weapon that the "+" under the list of weapons stores.
pub fn placeholder_weapon() -> (w: WeaponRecord)
    ensures
        is_placeholder_weapon(w),
{
    let mut properties: Vec<String> = Vec::new();
    properties.push(String::from_str("one"));
    properties.push(String::from_str("two"));
    WeaponRecord {
        id: RecordId::new_in(WEAPON_TABLE),
        weapon_name: String::from_str("test"),
        damage_dice: vec![Die::D8, Die::D8, Die::D6],
        weight_bits: 0x4000_0000,
        description: String::from_str("descriptoion herer"),
        properties,
        damage_type: String::from_str("idk something"),
    }
}

/// The weapon screen: where it is, and the form for a new weapon.
pub struct Weapon {
    pub state: State,
    pub temp: TempWeapon,
}

impl Weapon {
    /// The weapon screen showing the picked weapon, with a blank form.
    pub fn new() -> (w: Self)
        ensures
            w.state == State::View,
            blank_weapon_form(w.temp),
    {
        Weapon {
            state: State::View,
            temp: TempWeapon {
                weapon_name: String::new(),
                damage_dice: Vec::new(),
                weight_bits: 0,
                description: String::new(),
                properties: Vec::new(),
                damage_type: String::new(),
            },
        }
    }

    /// The user pressed "+" under the list of weapons: the form opens and
    /// the store is asked to create the placeholder weapon.
    pub fn start_create(&mut self) -> (effects: Vec<Effect>)
        ensures
            final(self).state == State::Create,
            final(self).temp == old(self).temp,
            effects@.len() == 1,
            effects@[0] matches Effect::Send(Command::CreateWeapon(w)) && is_placeholder_weapon(w),
    {
        self.state = State::Create;
        let mut effects: Vec<Effect> = Vec::new();
        effects.push(Effect::Send(Command::CreateWeapon(placeholder_weapon())));
        effects
    }

    /// The user pressed "Delete" on the picked weapon: the screen asks for
    /// confirmation.
    pub fn start_delete(&mut self)
        ensures
            final(self).state == State::Delete,
            final(self).temp == old(self).temp,
    {
        self.state = State::Delete;
    }

    /// The user pressed "Confirm" in the form: the screen asks for
    /// confirmation.
    pub fn press_confirm(&mut self)
        ensures
            final(self).state == State::ConfirmCreate,
            final(self).temp == old(self).temp,
    {
        self.state = State::ConfirmCreate;
    }

    /// The user pressed "Exit" in the form: the form is cleared and closed.
    pub fn press_exit(&mut self)
        ensures
            final(self).state == State::View,
            blank_weapon_form(final(self).temp),
    {
        self.temp.clear();
        self.state = State::View;
    }

    /// Handles the answer of the dialog that confirms the deletion of the
    /// picked weapon, `selected`. Only while the screen asks for it: a
    /// confirmed deletion returns to the view, asks the store to delete the
    /// weapon, forgets the picked race (not the weapon) and asks for the
    /// list of weapons again; a cancelled one returns to the view.
    pub fn delete_step(&mut self, result: ConfirmationResult, selected: &Option<WeaponRecord>) -> (effects: Vec<Effect>)
        requires
            old(self).state == State::Delete && result == ConfirmationResult::Confirmed ==> selected is Some,
        ensures
            old(self).state != State::Delete || result == ConfirmationResult::Pending ==> {
                &&& *final(self) == *old(self)
                &&& effects@.len() == 0
            },
            old(self).state == State::Delete && result == ConfirmationResult::Cancelled ==> {
                &&& final(self).state == State::View
                &&& final(self).temp == old(self).temp
                &&& effects@.len() == 0
            },
            old(self).state == State::Delete && result == ConfirmationResult::Confirmed ==> {
                &&& final(self).state == State::View
                &&& final(self).temp == old(self).temp
                &&& effects@ == seq![
                    Effect::Send(Command::DeleteWeapon(selected.unwrap().id)),
                    Effect::ClearSelectedRace,
                    Effect::Send(Command::LoadWeapons),
                ]
            },
    {
        let mut effects: Vec<Effect> = Vec::new();
        if self.state == State::Delete {
            match result {
                ConfirmationResult::Pending => {},
                ConfirmationResult::Confirmed => {
                    self.state = State::View;
                    let id = match selected {
                        Some(weapon) => weapon.id.clone(),
                        None => return effects,
                    };
                    effects.push(Effect::Send(Command::DeleteWeapon(id)));
                    effects.push(Effect::ClearSelectedRace);
                    effects.push(Effect::Send(Command::LoadWeapons));
                },
                ConfirmationResult::Cancelled => {
                    self.state = State::View;
                },
            }
        }
        effects
    }

    /// Handles the answer of the dialog that confirms a new weapon. Only
    /// while the screen asks for it: a cancelled confirmation returns to the
    /// form; a confirmed one changes nothing.
    pub fn confirm_create_step(&mut self, result: ConfirmationResult)
        ensures
            old(self).state == State::ConfirmCreate && result == ConfirmationResult::Cancelled ==> {
                &&& final(self).state == State::Create
                &&& final(self).temp == old(self).temp
            },
            !(old(self).state == State::ConfirmCreate && result == ConfirmationResult::Cancelled)
                ==> *final(self) == *old(self),
    {
        if self.state == State::ConfirmCreate {
            match result {
                ConfirmationResult::Cancelled => {
                    self.state = State::Create;
                },
                _ => {},
            }
        }
    }
}

} // verus!
