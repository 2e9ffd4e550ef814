//! The description of a legal action that Python receives as a dictionary.
use vstd::prelude::*;

verus! {

/// What an action id stands for in the current decision of one environment.
pub enum ActionDesc {
    MulliganConfirm,
    MulliganSelect { hand_index: u64 },
    Pass,
    Clock { hand_index: u64 },
    MainPlayCharacter { hand_index: u64, stage_slot: u64 },
    MainPlayEvent { hand_index: u64 },
    MainMove { from_slot: u64, to_slot: u64 },
    MainActivateAbility { slot: u64, ability_index: u64 },
    ClimaxPlay { hand_index: u64 },
    /// `attack_type` is the engine's name of the attack type.
    Attack { slot: u64, attack_type: String },
    CounterPlay { hand_index: u64 },
    LevelUp { index: u64 },
    EncorePay { slot: u64 },
    EncoreDecline { slot: u64 },
    TriggerOrder { index: u64 },
    ChoiceSelect { index: u64 },
    ChoicePrevPage,
    ChoiceNextPage,
    Concede,
}

/// The dictionary describing an action: the entry `"kind"`, then the
/// integer entries in order, then the one text entry if there is one.
pub struct ActionDict {
    pub kind: &'static str,
    pub ints: Vec<(&'static str, u64)>,
    pub text: Option<(&'static str, String)>,
}

/// The value of the `"kind"` entry of an action's dictionary.
pub open spec fn kind_name(a: ActionDesc) -> Seq<char> {
    match a {
        ActionDesc::MulliganConfirm => "mulligan_confirm"@,
        ActionDesc::MulliganSelect { .. } => "mulligan_select"@,
        ActionDesc::Pass => "pass"@,
        ActionDesc::Clock { .. } => "clock"@,
        ActionDesc::MainPlayCharacter { .. } => "main_play_character"@,
        ActionDesc::MainPlayEvent { .. } => "main_play_event"@,
        ActionDesc::MainMove { .. } => "main_move"@,
        ActionDesc::MainActivateAbility { .. } => "main_activate_ability"@,
        ActionDesc::ClimaxPlay { .. } => "climax_play"@,
        ActionDesc::Attack { .. } => "attack"@,
        ActionDesc::CounterPlay { .. } => "counter_play"@,
        ActionDesc::LevelUp { .. } => "level_up"@,
        ActionDesc::EncorePay { .. } => "encore_pay"@,
        ActionDesc::EncoreDecline { .. } => "encore_decline"@,
        ActionDesc::TriggerOrder { .. } => "trigger_order"@,
        ActionDesc::ChoiceSelect { .. } => "choice_select"@,
        ActionDesc::ChoicePrevPage => "choice_prev_page"@,
        ActionDesc::ChoiceNextPage => "choice_next_page"@,
        ActionDesc::Concede => "concede"@,
    }
}

/// The integer entries of an action's dictionary, in order.
pub open spec fn int_entries(a: ActionDesc) -> Seq<(Seq<char>, u64)> {
    match a {
        ActionDesc::MulliganSelect { hand_index } => seq![("hand_index"@, hand_index)],
        ActionDesc::Clock { hand_index } => seq![("hand_index"@, hand_index)],
        ActionDesc::MainPlayCharacter { hand_index, stage_slot } => seq![
            ("hand_index"@, hand_index),
            ("stage_slot"@, stage_slot),
        ],
        ActionDesc::MainPlayEvent { hand_index } => seq![("hand_index"@, hand_index)],
        ActionDesc::MainMove { from_slot, to_slot } => seq![
            ("from_slot"@, from_slot),
            ("to_slot"@, to_slot),
        ],
        ActionDesc::MainActivateAbility { slot, ability_index } => seq![
            ("slot"@, slot),
            ("ability_index"@, ability_index),
        ],
        ActionDesc::ClimaxPlay { hand_index } => seq![("hand_index"@, hand_index)],
        ActionDesc::Attack { slot, .. } => seq![("slot"@, slot)],
        ActionDesc::CounterPlay { hand_index } => seq![("hand_index"@, hand_index)],
        ActionDesc::LevelUp { index } => seq![("index"@, index)],
        ActionDesc::EncorePay { slot } => seq![("slot"@, slot)],
        ActionDesc::EncoreDecline { slot } => seq![("slot"@, slot)],
        ActionDesc::TriggerOrder { index } => seq![("index"@, index)],
        ActionDesc::ChoiceSelect { index } => seq![("index"@, index)],
        _ => seq![],
    }
}

/// The view of a list of integer entries: each key by its characters.
pub open spec fn int_entries_view(ints: Seq<(&'static str, u64)>) -> Seq<(Seq<char>, u64)> {
    ints.map_values(|e: (&'static str, u64)| (e.0@, e.1))
}

/// `d` is the dictionary describing `a`: its kind, its integer parameters
/// in order, and, for an attack only, the attack type.
pub open spec fn describes(d: ActionDict, a: ActionDesc) -> bool {
    &&& d.kind@ == kind_name(a)
    &&& int_entries_view(d.ints@) == int_entries(a)
    &&& match a {
        ActionDesc::Attack { attack_type, .. } => d.text matches Some(t) && t.0@ == "attack_type"@
            && t.1@ == attack_type@,
        _ => d.text is None,
    }
}

/// Each action is described under its own fixed snake_case kind, with its
/// parameters as integer entries under their own field names in declaration
/// order, and only an attack carries a text entry, its attack type.
pub proof fn action_dict_spells_each_kind(d: ActionDict, a: ActionDesc)
    requires
        describes(d, a),
    ensures
        match a {
            ActionDesc::MulliganConfirm => {
                &&& d.kind@ == "mulligan_confirm"@
                &&& d.ints@.len() == 0
                &&& d.text is None
            },
            ActionDesc::MulliganSelect { hand_index } => {
                &&& d.kind@ == "mulligan_select"@
                &&& d.ints@.len() == 1
                &&& d.ints@[0].0@ == "hand_index"@
                &&& d.ints@[0].1 == hand_index
                &&& d.text is None
            },
            ActionDesc::Pass => {
                &&& d.kind@ == "pass"@
                &&& d.ints@.len() == 0
                &&& d.text is None
            },
            ActionDesc::Clock { hand_index } => {
                &&& d.kind@ == "clock"@
                &&& d.ints@.len() == 1
                &&& d.ints@[0].0@ == "hand_index"@
                &&& d.ints@[0].1 == hand_index
                &&& d.text is None
            },
            ActionDesc::MainPlayCharacter { hand_index, stage_slot } => {
                &&& d.kind@ == "main_play_character"@
                &&& d.ints@.len() == 2
                &&& d.ints@[0].0@ == "hand_index"@
                &&& d.ints@[0].1 == hand_index
                &&& d.ints@[1].0@ == "stage_slot"@
                &&& d.ints@[1].1 == stage_slot
                &&& d.text is None
            },
            ActionDesc::MainPlayEvent { hand_index } => {
                &&& d.kind@ == "main_play_event"@
                &&& d.ints@.len() == 1
                &&& d.ints@[0].0@ == "hand_index"@
                &&& d.ints@[0].1 == hand_index
                &&& d.text is None
            },
            ActionDesc::MainMove { from_slot, to_slot } => {
                &&& d.kind@ == "main_move"@
                &&& d.ints@.len() == 2
                &&& d.ints@[0].0@ == "from_slot"@
                &&& d.ints@[0].1 == from_slot
                &&& d.ints@[1].0@ == "to_slot"@
                &&& d.ints@[1].1 == to_slot
                &&& d.text is None
            },
            ActionDesc::MainActivateAbility { slot, ability_index } => {
                &&& d.kind@ == "main_activate_ability"@
                &&& d.ints@.len() == 2
                &&& d.ints@[0].0@ == "slot"@
                &&& d.ints@[0].1 == slot
                &&& d.ints@[1].0@ == "ability_index"@
                &&& d.ints@[1].1 == ability_index
                &&& d.text is None
            },
            ActionDesc::ClimaxPlay { hand_index } => {
                &&& d.kind@ == "climax_play"@
                &&& d.ints@.len() == 1
                &&& d.ints@[0].0@ == "hand_index"@
                &&& d.ints@[0].1 == hand_index
                &&& d.text is None
            },
            ActionDesc::Attack { slot, attack_type } => {
                &&& d.kind@ == "attack"@
                &&& d.ints@.len() == 1
                &&& d.ints@[0].0@ == "slot"@
                &&& d.ints@[0].1 == slot
                &&& d.text matches Some(t) && t.0@ == "attack_type"@ && t.1@ == attack_type@
            },
            ActionDesc::CounterPlay { hand_index } => {
                &&& d.kind@ == "counter_play"@
                &&& d.ints@.len() == 1
                &&& d.ints@[0].0@ == "hand_index"@
                &&& d.ints@[0].1 == hand_index
                &&& d.text is None
            },
            ActionDesc::LevelUp { index } => {
                &&& d.kind@ == "level_up"@
                &&& d.ints@.len() == 1
                &&& d.ints@[0].0@ == "index"@
                &&& d.ints@[0].1 == index
                &&& d.text is None
            },
            ActionDesc::EncorePay { slot } => {
                &&& d.kind@ == "encore_pay"@
                &&& d.ints@.len() == 1
                &&& d.ints@[0].0@ == "slot"@
                &&& d.ints@[0].1 == slot
                &&& d.text is None
            },
            ActionDesc::EncoreDecline { slot } => {
                &&& d.kind@ == "encore_decline"@
                &&& d.ints@.len() == 1
                &&& d.ints@[0].0@ == "slot"@
                &&& d.ints@[0].1 == slot
                &&& d.text is None
            },
            ActionDesc::TriggerOrder { index } => {
                &&& d.kind@ == "trigger_order"@
                &&& d.ints@.len() == 1
                &&& d.ints@[0].0@ == "index"@
                &&& d.ints@[0].1 == index
                &&& d.text is None
            },
            ActionDesc::ChoiceSelect { index } => {
                &&& d.kind@ == "choice_select"@
                &&& d.ints@.len() == 1
                &&& d.ints@[0].0@ == "index"@
                &&& d.ints@[0].1 == index
                &&& d.text is None
            },
            ActionDesc::ChoicePrevPage => {
                &&& d.kind@ == "choice_prev_page"@
                &&& d.ints@.len() == 0
                &&& d.text is None
            },
            ActionDesc::ChoiceNextPage => {
                &&& d.kind@ == "choice_next_page"@
                &&& d.ints@.len() == 0
                &&& d.text is None
            },
            ActionDesc::Concede => {
                &&& d.kind@ == "concede"@
                &&& d.ints@.len() == 0
                &&& d.text is None
            },
        },
{
    assert(d.ints@.len() == int_entries_view(d.ints@).len());
    if d.ints@.len() > 0 {
        assert(int_entries_view(d.ints@)[0] == (d.ints@[0].0@, d.ints@[0].1));
    }
    if d.ints@.len() > 1 {
        assert(int_entries_view(d.ints@)[1] == (d.ints@[1].0@, d.ints@[1].1));
    }
}

/// A list of integer entries.
fn entries(pairs: &[(&'static str, u64)]) -> (v: Vec<(&'static str, u64)>)
    ensures
        v@ == pairs@,
{
    let mut v = Vec::new();
    let mut i: usize = 0;
    while i < pairs.len()
        invariant
            i <= pairs@.len(),
            v@ == pairs@.take(i as int),
        decreases pairs@.len() - i,
    {
        v.push(pairs[i]);
        assert(pairs@.take(i + 1) =~= pairs@.take(i as int).push(pairs@[i as int]));
        i = i + 1;
    }
    assert(pairs@.take(i as int) =~= pairs@);
    v
}

/// Describes an action as the dictionary Python receives: its kind, its
/// integer parameters, and, for an attack, the attack type.
pub fn action_desc_to_dict(action: &ActionDesc) -> (d: ActionDict)
    ensures
        d.kind@ == kind_name(*action),
        int_entries_view(d.ints@) == int_entries(*action),
        match action {
            ActionDesc::Attack { attack_type, .. } => d.text matches Some(t) && t.0@ == "attack_type"@
                && t.1@ == attack_type@,
            _ => d.text is None,
        },
        describes(d, *action),
{
    let (kind, ints, text): (&'static str, Vec<(&'static str, u64)>, Option<(&'static str, String)>) =
        match action {
        ActionDesc::MulliganConfirm => ("mulligan_confirm", entries(&[]), None),
        ActionDesc::MulliganSelect { hand_index } => (
            "mulligan_select",
            entries(&[("hand_index", *hand_index)]),
            None,
        ),
        ActionDesc::Pass => ("pass", entries(&[]), None),
        ActionDesc::Clock { hand_index } => ("clock", entries(&[("hand_index", *hand_index)]), None),
        ActionDesc::MainPlayCharacter { hand_index, stage_slot } => (
            "main_play_character",
            entries(&[("hand_index", *hand_index), ("stage_slot", *stage_slot)]),
            None,
        ),
        ActionDesc::MainPlayEvent { hand_index } => (
            "main_play_event",
            entries(&[("hand_index", *hand_index)]),
            None,
        ),
        ActionDesc::MainMove { from_slot, to_slot } => (
            "main_move",
            entries(&[("from_slot", *from_slot), ("to_slot", *to_slot)]),
            None,
        ),
        ActionDesc::MainActivateAbility { slot, ability_index } => (
            "main_activate_ability",
            entries(&[("slot", *slot), ("ability_index", *ability_index)]),
            None,
        ),
        ActionDesc::ClimaxPlay { hand_index } => (
            "climax_play",
            entries(&[("hand_index", *hand_index)]),
            None,
        ),
        ActionDesc::Attack { slot, attack_type } => (
            "attack",
            entries(&[("slot", *slot)]),
            Some(("attack_type", attack_type.clone())),
        ),
        ActionDesc::CounterPlay { hand_index } => (
            "counter_play",
            entries(&[("hand_index", *hand_index)]),
            None,
        ),
        ActionDesc::LevelUp { index } => ("level_up", entries(&[("index", *index)]), None),
        ActionDesc::EncorePay { slot } => ("encore_pay", entries(&[("slot", *slot)]), None),
        ActionDesc::EncoreDecline { slot } => ("encore_decline", entries(&[("slot", *slot)]), None),
        ActionDesc::TriggerOrder { index } => ("trigger_order", entries(&[("index", *index)]), None),
        ActionDesc::ChoiceSelect { index } => ("choice_select", entries(&[("index", *index)]), None),
        ActionDesc::ChoicePrevPage => ("choice_prev_page", entries(&[]), None),
        ActionDesc::ChoiceNextPage => ("choice_next_page", entries(&[]), None),
        ActionDesc::Concede => ("concede", entries(&[]), None),
    };
    let d = ActionDict { kind, ints, text };
    assert(int_entries_view(d.ints@) =~= int_entries(*action));
    d
}

/// Describes the action each environment's id stands for, one entry per
/// environment in order: `None` where the id stands for no action in that
/// environment, else the dictionary `action_desc_to_dict` gives.
pub fn describe_actions(actions: &Vec<Option<ActionDesc>>) -> (v: Vec<Option<ActionDict>>)
    ensures
        v@.len() == actions@.len(),
        forall|i: int|
            0 <= i < actions@.len() ==> match #[trigger] actions@[i] {
                None => v@[i] is None,
                Some(a) => v@[i] matches Some(d) && describes(d, a),
            },
{
    let mut v: Vec<Option<ActionDict>> = Vec::new();
    let mut i: usize = 0;
    while i < actions.len()
        invariant
            i <= actions@.len(),
            v@.len() == i,
            forall|j: int|
                0 <= j < i ==> match #[trigger] actions@[j] {
                    None => v@[j] is None,
                    Some(a) => v@[j] matches Some(d) && describes(d, a),
                },
        decreases actions@.len() - i,
    {
        let entry = match &actions[i] {
            None => None,
            Some(a) => Some(action_desc_to_dict(a)),
        };
        v.push(entry);
        i = i + 1;
    }
    v
}

} // verus!
