//! The contents of the Python module `weiss_sim`.
use vstd::prelude::*;

verus! {

/// The version and encoding constants that the module exports.
#[derive(Clone, Copy)]
pub struct EncodingConstants {
    pub obs_len: usize,
    pub action_space_size: usize,
    pub obs_encoding_version: u32,
    pub action_encoding_version: u32,
    pub policy_version: u32,
    pub spec_hash: u64,
    pub pass_action_id: u32,
    pub actor_none: i8,
    pub decision_kind_none: i8,
}

/// The value of a module constant.
pub enum ModuleValue {
    Text(String),
    Unsigned(u64),
    Signed(i64),
}

/// A constant of the module, under the name Python sees.
pub struct ModuleConstant {
    pub name: &'static str,
    pub value: ModuleValue,
}

/// The classes the module registers.
#[derive(Clone, Copy, Debug, PartialEq, Eq, Structural)]
pub enum ModuleClass {
    EnvPool,
    BatchOutMinimal,
    BatchOutMinimalI16,
    BatchOutMinimalI16LegalIds,
    BatchOutMinimalNoMask,
    BatchOutTrajectory,
    BatchOutTrajectoryI16,
    BatchOutTrajectoryI16LegalIds,
    BatchOutTrajectoryNoMask,
    BatchOutDebug,
}

/// The functions the module registers.
#[derive(Clone, Copy, Debug, PartialEq, Eq, Structural)]
pub enum ModuleFunction {
    ObservationSpecJson,
    ActionSpecJson,
    DecodeActionId,
    BuildInfo,
}

/// What the module holds, in the order it is registered.
pub struct ModuleContents {
    pub constants: Vec<ModuleConstant>,
    pub classes: Vec<ModuleClass>,
    pub functions: Vec<ModuleFunction>,
}

/// The constant `name` with the unsigned value `value`.
pub open spec fn unsigned_constant(c: ModuleConstant, name: Seq<char>, value: u64) -> bool {
    c.name@ == name && c.value == ModuleValue::Unsigned(value)
}

/// The constant `name` with the signed value `value`.
pub open spec fn signed_constant(c: ModuleConstant, name: Seq<char>, value: i64) -> bool {
    c.name@ == name && c.value == ModuleValue::Signed(value)
}

/// A constant stated as unsigned or signed carries exactly the given name
/// and the given value, of that signedness.
pub proof fn module_constants_carry_name_and_value(c: ModuleConstant, name: Seq<char>, u: u64, i: i64)
    ensures
        unsigned_constant(c, name, u) <==> c.name@ == name && c.value == ModuleValue::Unsigned(u),
        signed_constant(c, name, i) <==> c.name@ == name && c.value == ModuleValue::Signed(i),
{
}

fn unsigned(name: &'static str, value: u64) -> (c: ModuleConstant)
    ensures
        unsigned_constant(c, name@, value),
{
    ModuleConstant { name, value: ModuleValue::Unsigned(value) }
}

fn signed(name: &'static str, value: i64) -> (c: ModuleConstant)
    ensures
        signed_constant(c, name@, value),
{
    ModuleConstant { name, value: ModuleValue::Signed(value) }
}

/// The contents of the module `weiss_sim`: its version, the encoding
/// constants, the pool and buffer classes, and the specification functions.
pub fn weiss_sim(version: String, consts: &EncodingConstants) -> (m: ModuleContents)
    ensures
        m.constants@.len() == 10,
        m.constants@[0].name@ == "__version__"@,
        m.constants@[0].value matches ModuleValue::Text(t) && t@ == version@,
        unsigned_constant(m.constants@[1], "OBS_LEN"@, consts.obs_len as u64),
        unsigned_constant(m.constants@[2], "ACTION_SPACE_SIZE"@, consts.action_space_size as u64),
        unsigned_constant(m.constants@[3], "OBS_ENCODING_VERSION"@, consts.obs_encoding_version as u64),
        unsigned_constant(
            m.constants@[4],
            "ACTION_ENCODING_VERSION"@,
            consts.action_encoding_version as u64,
        ),
        unsigned_constant(m.constants@[5], "POLICY_VERSION"@, consts.policy_version as u64),
        unsigned_constant(m.constants@[6], "SPEC_HASH"@, consts.spec_hash),
        unsigned_constant(m.constants@[7], "PASS_ACTION_ID"@, consts.pass_action_id as u64),
        signed_constant(m.constants@[8], "ACTOR_NONE"@, consts.actor_none as i64),
        signed_constant(m.constants@[9], "DECISION_KIND_NONE"@, consts.decision_kind_none as i64),
        m.classes@ == seq![
            ModuleClass::EnvPool,
            ModuleClass::BatchOutMinimal,
            ModuleClass::BatchOutMinimalI16,
            ModuleClass::BatchOutMinimalI16LegalIds,
            ModuleClass::BatchOutMinimalNoMask,
            ModuleClass::BatchOutTrajectory,
            ModuleClass::BatchOutTrajectoryI16,
            ModuleClass::BatchOutTrajectoryI16LegalIds,
            ModuleClass::BatchOutTrajectoryNoMask,
            ModuleClass::BatchOutDebug,
        ],
        m.functions@ == seq![
            ModuleFunction::ObservationSpecJson,
            ModuleFunction::ActionSpecJson,
            ModuleFunction::DecodeActionId,
            ModuleFunction::BuildInfo,
        ],
{
    let mut constants = Vec::new();
    constants.push(ModuleConstant { name: "__version__", value: ModuleValue::Text(version) });
    constants.push(unsigned("OBS_LEN", consts.obs_len as u64));
    constants.push(unsigned("ACTION_SPACE_SIZE", consts.action_space_size as u64));
    constants.push(unsigned("OBS_ENCODING_VERSION", consts.obs_encoding_version as u64));
    constants.push(unsigned("ACTION_ENCODING_VERSION", consts.action_encoding_version as u64));
    constants.push(unsigned("POLICY_VERSION", consts.policy_version as u64));
    constants.push(unsigned("SPEC_HASH", consts.spec_hash));
    constants.push(unsigned("PASS_ACTION_ID", consts.pass_action_id as u64));
    constants.push(signed("ACTOR_NONE", consts.actor_none as i64));
    constants.push(signed("DECISION_KIND_NONE", consts.decision_kind_none as i64));
    let mut classes = Vec::new();
    classes.push(ModuleClass::EnvPool);
    classes.push(ModuleClass::BatchOutMinimal);
    classes.push(ModuleClass::BatchOutMinimalI16);
    classes.push(ModuleClass::BatchOutMinimalI16LegalIds);
    classes.push(ModuleClass::BatchOutMinimalNoMask);
    classes.push(ModuleClass::BatchOutTrajectory);
    classes.push(ModuleClass::BatchOutTrajectoryI16);
    classes.push(ModuleClass::BatchOutTrajectoryI16LegalIds);
    classes.push(ModuleClass::BatchOutTrajectoryNoMask);
    classes.push(ModuleClass::BatchOutDebug);
    let mut functions = Vec::new();
    functions.push(ModuleFunction::ObservationSpecJson);
    functions.push(ModuleFunction::ActionSpecJson);
    functions.push(ModuleFunction::DecodeActionId);
    functions.push(ModuleFunction::BuildInfo);
    ModuleContents { constants, classes, functions }
}

} // verus!
