use weiss_py::action::{action_desc_to_dict, describe_actions, ActionDesc};
use weiss_py::module::{weiss_sim, EncodingConstants, ModuleClass, ModuleFunction, ModuleValue};

#[test]
fn simple_actions_have_only_a_kind() {
    for (a, kind) in [
        (ActionDesc::MulliganConfirm, "mulligan_confirm"),
        (ActionDesc::Pass, "pass"),
        (ActionDesc::ChoicePrevPage, "choice_prev_page"),
        (ActionDesc::ChoiceNextPage, "choice_next_page"),
        (ActionDesc::Concede, "concede"),
    ] {
        let d = action_desc_to_dict(&a);
        assert_eq!(d.kind, kind);
        assert!(d.ints.is_empty());
        assert!(d.text.is_none());
    }
}

#[test]
fn parameterised_actions_list_their_fields_in_order() {
    let d = action_desc_to_dict(&ActionDesc::MainPlayCharacter { hand_index: 2, stage_slot: 4 });
    assert_eq!(d.kind, "main_play_character");
    assert_eq!(d.ints, vec![("hand_index", 2), ("stage_slot", 4)]);
    let d = action_desc_to_dict(&ActionDesc::MainMove { from_slot: 1, to_slot: 3 });
    assert_eq!(d.ints, vec![("from_slot", 1), ("to_slot", 3)]);
    let d = action_desc_to_dict(&ActionDesc::MainActivateAbility { slot: 0, ability_index: 5 });
    assert_eq!(d.kind, "main_activate_ability");
    assert_eq!(d.ints, vec![("slot", 0), ("ability_index", 5)]);
    let d = action_desc_to_dict(&ActionDesc::LevelUp { index: 6 });
    assert_eq!((d.kind, d.ints), ("level_up", vec![("index", 6)]));
    let d = action_desc_to_dict(&ActionDesc::EncoreDecline { slot: 2 });
    assert_eq!((d.kind, d.ints), ("encore_decline", vec![("slot", 2)]));
}

#[test]
fn attack_carries_its_type() {
    let d = action_desc_to_dict(&ActionDesc::Attack { slot: 1, attack_type: "Frontal".to_string() });
    assert_eq!(d.kind, "attack");
    assert_eq!(d.ints, vec![("slot", 1)]);
    assert_eq!(d.text, Some(("attack_type", "Frontal".to_string())));
}

#[test]
fn kinds_are_distinct() {
    let all = [
        ActionDesc::MulliganConfirm,
        ActionDesc::MulliganSelect { hand_index: 0 },
        ActionDesc::Pass,
        ActionDesc::Clock { hand_index: 0 },
        ActionDesc::MainPlayCharacter { hand_index: 0, stage_slot: 0 },
        ActionDesc::MainPlayEvent { hand_index: 0 },
        ActionDesc::MainMove { from_slot: 0, to_slot: 0 },
        ActionDesc::MainActivateAbility { slot: 0, ability_index: 0 },
        ActionDesc::ClimaxPlay { hand_index: 0 },
        ActionDesc::Attack { slot: 0, attack_type: String::new() },
        ActionDesc::CounterPlay { hand_index: 0 },
        ActionDesc::LevelUp { index: 0 },
        ActionDesc::EncorePay { slot: 0 },
        ActionDesc::EncoreDecline { slot: 0 },
        ActionDesc::TriggerOrder { index: 0 },
        ActionDesc::ChoiceSelect { index: 0 },
        ActionDesc::ChoicePrevPage,
        ActionDesc::ChoiceNextPage,
        ActionDesc::Concede,
    ];
    let mut kinds: Vec<&str> = all.iter().map(|a| action_desc_to_dict(a).kind).collect();
    kinds.sort();
    kinds.dedup();
    assert_eq!(kinds.len(), all.len());
}

#[test]
fn module_exports_constants_classes_and_functions() {
    let consts = EncodingConstants {
        obs_len: 300,
        action_space_size: 500,
        obs_encoding_version: 3,
        action_encoding_version: 4,
        policy_version: 2,
        spec_hash: 0xfeed,
        pass_action_id: 0,
        actor_none: -1,
        decision_kind_none: -1,
    };
    let m = weiss_sim("1.2.3".to_string(), &consts);
    let names: Vec<&str> = m.constants.iter().map(|c| c.name).collect();
    assert_eq!(
        names,
        vec![
            "__version__",
            "OBS_LEN",
            "ACTION_SPACE_SIZE",
            "OBS_ENCODING_VERSION",
            "ACTION_ENCODING_VERSION",
            "POLICY_VERSION",
            "SPEC_HASH",
            "PASS_ACTION_ID",
            "ACTOR_NONE",
            "DECISION_KIND_NONE"
        ]
    );
    assert!(matches!(&m.constants[0].value, ModuleValue::Text(v) if v == "1.2.3"));
    assert!(matches!(m.constants[1].value, ModuleValue::Unsigned(300)));
    assert!(matches!(m.constants[6].value, ModuleValue::Unsigned(0xfeed)));
    assert!(matches!(m.constants[8].value, ModuleValue::Signed(-1)));
    assert_eq!(m.classes.len(), 10);
    assert_eq!(m.classes[0], ModuleClass::EnvPool);
    assert_eq!(m.classes[9], ModuleClass::BatchOutDebug);
    assert_eq!(
        m.functions,
        vec![
            ModuleFunction::ObservationSpecJson,
            ModuleFunction::ActionSpecJson,
            ModuleFunction::DecodeActionId,
            ModuleFunction::BuildInfo
        ]
    );
}

#[test]
fn describe_actions_keeps_one_entry_per_environment() {
    let actions = vec![
        None,
        Some(ActionDesc::Pass),
        Some(ActionDesc::Attack { slot: 2, attack_type: "Side".to_string() }),
        Some(ActionDesc::MainMove { from_slot: 0, to_slot: 4 }),
    ];
    let v = describe_actions(&actions);
    assert_eq!(v.len(), 4);
    assert!(v[0].is_none());
    let pass = v[1].as_ref().unwrap();
    assert_eq!(pass.kind, "pass");
    assert!(pass.ints.is_empty() && pass.text.is_none());
    let attack = v[2].as_ref().unwrap();
    assert_eq!(attack.kind, "attack");
    assert_eq!(attack.ints, vec![("slot", 2)]);
    assert_eq!(attack.text, Some(("attack_type", "Side".to_string())));
    let mv = v[3].as_ref().unwrap();
    assert_eq!(mv.ints, vec![("from_slot", 0), ("to_slot", 4)]);
    assert!(describe_actions(&Vec::new()).is_empty());
}
