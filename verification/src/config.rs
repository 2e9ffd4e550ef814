//! The textual and optional configuration options of a pool, and what they
//! are read as.
use vstd::prelude::*;

verus! {

/// What a pool does when the engine reports an error in one environment.
#[derive(Clone, Copy, Debug, PartialEq, Eq, Structural)]
pub enum ErrorPolicy {
    Strict,
    LenientTerminate,
    LenientNoop,
}

/// How much of the hidden game state observations reveal.
#[derive(Clone, Copy, Debug, PartialEq, Eq, Structural)]
pub enum ObservationVisibility {
    Public,
    Full,
}

/// How much of the hidden game state recorded replays reveal.
#[derive(Clone, Copy, Debug, PartialEq, Eq, Structural)]
pub enum ReplayVisibilityMode {
    Full,
    Public,
}

/// Why a configuration option was refused. Every variant is reported to
/// Python as a `ValueError`.
#[derive(Clone, Debug, PartialEq, Eq)]
pub enum ConfigError {
    /// The error policy named none of the known policies; `got` is the lowercased name.
    ErrorPolicy { got: String },
    /// The observation visibility was neither public nor full; `got` is the lowercased name.
    ObservationVisibility { got: String },
    /// The replay visibility was neither full nor public; `got` is the lowercased name.
    ReplayVisibility { got: String },
    /// Not exactly two deck lists were given.
    DeckListsLen,
    /// Not exactly two deck ids were given.
    DeckIdsLen,
    /// A pool was asked for zero environments.
    ZeroEnvs,
}

/// The lowercase form of a string, as `str::to_lowercase` computes it.
pub uninterp spec fn lowercase(s: Seq<char>) -> Seq<char>;

/// Calls `str::to_lowercase`, which maps every character of `s` to its
/// Unicode lowercase form. The contract only names the result: the Unicode
/// case tables are not restated here.
#[verifier::external_body]
fn to_lowercase(s: &str) -> (r: String)
    ensures
        r@ == lowercase(s@),
{
    s.to_lowercase()
}

/// `s` spells the literal `lit`.
fn spells(s: &String, lit: &str) -> (b: bool)
    ensures
        b == (s@ == lit@),
{
    let lit = lit.to_owned();
    s.eq(&lit)
}

/// The error policy a lowercased name stands for.
pub open spec fn error_policy_named(lower: Seq<char>) -> Option<ErrorPolicy> {
    if lower == "strict"@ {
        Some(ErrorPolicy::Strict)
    } else if lower == "lenient_terminate"@ || lower == "lenient"@ {
        Some(ErrorPolicy::LenientTerminate)
    } else if lower == "lenient_noop"@ {
        Some(ErrorPolicy::LenientNoop)
    } else {
        None
    }
}

/// The observation visibility a lowercased name stands for.
pub open spec fn observation_visibility_named(lower: Seq<char>) -> Option<ObservationVisibility> {
    if lower == "public"@ {
        Some(ObservationVisibility::Public)
    } else if lower == "full"@ {
        Some(ObservationVisibility::Full)
    } else {
        None
    }
}

/// The replay visibility a lowercased name stands for.
pub open spec fn replay_visibility_named(lower: Seq<char>) -> Option<ReplayVisibilityMode> {
    if lower == "full"@ {
        Some(ReplayVisibilityMode::Full)
    } else if lower == "public"@ {
        Some(ReplayVisibilityMode::Public)
    } else {
        None
    }
}

/// The error policy read from a lowercased name is the one it spells:
/// `strict` is `Strict`, `lenient_terminate` and `lenient` are
/// `LenientTerminate`, `lenient_noop` is `LenientNoop`, and no other name is read.
pub proof fn error_policy_reads_the_name_it_spells(lower: Seq<char>)
    ensures
        error_policy_named(lower) == Some(ErrorPolicy::Strict) <==> lower == "strict"@,
        error_policy_named(lower) == Some(ErrorPolicy::LenientTerminate) <==> (lower == "lenient_terminate"@
            || lower == "lenient"@),
        error_policy_named(lower) == Some(ErrorPolicy::LenientNoop) <==> lower == "lenient_noop"@,
        error_policy_named(lower) is None <==> (lower != "strict"@ && lower != "lenient_terminate"@ && lower
            != "lenient"@ && lower != "lenient_noop"@),
{
    reveal_strlit("strict");
    assert("strict"@.len() == 6);
    reveal_strlit("lenient_terminate");
    assert("lenient_terminate"@.len() == 17);
    reveal_strlit("lenient");
    assert("lenient"@.len() == 7);
    reveal_strlit("lenient_noop");
    assert("lenient_noop"@.len() == 12);
}

/// The observation visibility read from a lowercased name is the one it
/// spells: `public` is `Public`, `full` is `Full`, and no other name is read.
pub proof fn observation_visibility_reads_the_name_it_spells(lower: Seq<char>)
    ensures
        observation_visibility_named(lower) == Some(ObservationVisibility::Public) <==> lower == "public"@,
        observation_visibility_named(lower) == Some(ObservationVisibility::Full) <==> lower == "full"@,
        observation_visibility_named(lower) is None <==> (lower != "public"@ && lower != "full"@),
{
    reveal_strlit("public");
    assert("public"@.len() == 6);
    reveal_strlit("full");
    assert("full"@.len() == 4);
}

/// The replay visibility read from a lowercased name is the one it spells:
/// `public` is `Public`, `full` is `Full`, and no other name is read.
pub proof fn replay_visibility_reads_the_name_it_spells(lower: Seq<char>)
    ensures
        replay_visibility_named(lower) == Some(ReplayVisibilityMode::Public) <==> lower == "public"@,
        replay_visibility_named(lower) == Some(ReplayVisibilityMode::Full) <==> lower == "full"@,
        replay_visibility_named(lower) is None <==> (lower != "public"@ && lower != "full"@),
{
    reveal_strlit("public");
    assert("public"@.len() == 6);
    reveal_strlit("full");
    assert("full"@.len() == 4);
}


/// Reads an already lowercased error-policy name: `strict`,
/// `lenient_terminate` (or `lenient`), or `lenient_noop`.
pub fn error_policy_from_lowercase(lower: String) -> (r: Result<ErrorPolicy, ConfigError>)
    ensures
        match error_policy_named(lower@) {
            Some(p) => r == Ok::<ErrorPolicy, ConfigError>(p),
            None => r matches Err(ConfigError::ErrorPolicy { got }) && got@ == lower@,
        },
        lower@ == "strict"@ ==> r == Ok::<ErrorPolicy, ConfigError>(ErrorPolicy::Strict),
        lower@ == "lenient_terminate"@ || lower@ == "lenient"@ ==> r == Ok::<ErrorPolicy, ConfigError>(
            ErrorPolicy::LenientTerminate,
        ),
        lower@ == "lenient_noop"@ ==> r == Ok::<ErrorPolicy, ConfigError>(ErrorPolicy::LenientNoop),
{
    proof {
        error_policy_reads_the_name_it_spells(lower@);
    }
    if spells(&lower, "strict") {
        Ok(ErrorPolicy::Strict)
    } else if spells(&lower, "lenient_terminate") || spells(&lower, "lenient") {
        Ok(ErrorPolicy::LenientTerminate)
    } else if spells(&lower, "lenient_noop") {
        Ok(ErrorPolicy::LenientNoop)
    } else {
        Err(ConfigError::ErrorPolicy { got: lower })
    }
}

/// Reads the optional error-policy option, ignoring case; without one the
/// policy is `LenientTerminate`.
pub fn parse_error_policy(error_policy: Option<String>) -> (r: Result<ErrorPolicy, ConfigError>)
    ensures
        error_policy is None ==> r == Ok::<ErrorPolicy, ConfigError>(ErrorPolicy::LenientTerminate),
        error_policy matches Some(name) ==> match error_policy_named(lowercase(name@)) {
            Some(p) => r == Ok::<ErrorPolicy, ConfigError>(p),
            None => r matches Err(ConfigError::ErrorPolicy { got }) && got@ == lowercase(name@),
        },
        error_policy matches Some(name) && lowercase(name@) == "strict"@ ==> r == Ok::<
            ErrorPolicy,
            ConfigError,
        >(ErrorPolicy::Strict),
        error_policy matches Some(name) && (lowercase(name@) == "lenient_terminate"@ || lowercase(name@)
            == "lenient"@) ==> r == Ok::<ErrorPolicy, ConfigError>(ErrorPolicy::LenientTerminate),
        error_policy matches Some(name) && lowercase(name@) == "lenient_noop"@ ==> r == Ok::<
            ErrorPolicy,
            ConfigError,
        >(ErrorPolicy::LenientNoop),
{
    match error_policy {
        Some(name) => error_policy_from_lowercase(to_lowercase(name.as_str())),
        None => Ok(ErrorPolicy::LenientTerminate),
    }
}

/// Reads an already lowercased observation-visibility name: `public` or `full`.
pub fn observation_visibility_from_lowercase(lower: String) -> (r: Result<ObservationVisibility, ConfigError>)
    ensures
        match observation_visibility_named(lower@) {
            Some(v) => r == Ok::<ObservationVisibility, ConfigError>(v),
            None => r matches Err(ConfigError::ObservationVisibility { got }) && got@ == lower@,
        },
        lower@ == "public"@ ==> r == Ok::<ObservationVisibility, ConfigError>(ObservationVisibility::Public),
        lower@ == "full"@ ==> r == Ok::<ObservationVisibility, ConfigError>(ObservationVisibility::Full),
{
    proof {
        observation_visibility_reads_the_name_it_spells(lower@);
    }
    if spells(&lower, "public") {
        Ok(ObservationVisibility::Public)
    } else if spells(&lower, "full") {
        Ok(ObservationVisibility::Full)
    } else {
        Err(ConfigError::ObservationVisibility { got: lower })
    }
}

/// Reads the optional observation-visibility option, ignoring case; without
/// one observations are `Public`.
pub fn parse_observation_visibility(observation_visibility: Option<String>) -> (r: Result<
    ObservationVisibility,
    ConfigError,
>)
    ensures
        observation_visibility is None ==> r == Ok::<ObservationVisibility, ConfigError>(
            ObservationVisibility::Public,
        ),
        observation_visibility matches Some(name) ==> match observation_visibility_named(
            lowercase(name@),
        ) {
            Some(v) => r == Ok::<ObservationVisibility, ConfigError>(v),
            None => r matches Err(ConfigError::ObservationVisibility { got }) && got@ == lowercase(
                name@,
            ),
        },
        observation_visibility matches Some(name) && lowercase(name@) == "public"@ ==> r == Ok::<
            ObservationVisibility,
            ConfigError,
        >(ObservationVisibility::Public),
        observation_visibility matches Some(name) && lowercase(name@) == "full"@ ==> r == Ok::<
            ObservationVisibility,
            ConfigError,
        >(ObservationVisibility::Full),
{
    match observation_visibility {
        Some(name) => observation_visibility_from_lowercase(to_lowercase(name.as_str())),
        None => Ok(ObservationVisibility::Public),
    }
}

/// Reads an already lowercased replay-visibility name: `full` or `public`.
pub fn replay_visibility_from_lowercase(lower: String) -> (r: Result<ReplayVisibilityMode, ConfigError>)
    ensures
        match replay_visibility_named(lower@) {
            Some(v) => r == Ok::<ReplayVisibilityMode, ConfigError>(v),
            None => r matches Err(ConfigError::ReplayVisibility { got }) && got@ == lower@,
        },
        lower@ == "public"@ ==> r == Ok::<ReplayVisibilityMode, ConfigError>(ReplayVisibilityMode::Public),
        lower@ == "full"@ ==> r == Ok::<ReplayVisibilityMode, ConfigError>(ReplayVisibilityMode::Full),
{
    proof {
        replay_visibility_reads_the_name_it_spells(lower@);
    }
    if spells(&lower, "full") {
        Ok(ReplayVisibilityMode::Full)
    } else if spells(&lower, "public") {
        Ok(ReplayVisibilityMode::Public)
    } else {
        Err(ConfigError::ReplayVisibility { got: lower })
    }
}

/// Reads the optional replay-visibility option, ignoring case; without one
/// replays are `Public`.
pub fn parse_replay_visibility_mode(visibility_mode: Option<String>) -> (r: Result<
    ReplayVisibilityMode,
    ConfigError,
>)
    ensures
        visibility_mode is None ==> r == Ok::<ReplayVisibilityMode, ConfigError>(
            ReplayVisibilityMode::Public,
        ),
        visibility_mode matches Some(name) ==> match replay_visibility_named(lowercase(name@)) {
            Some(v) => r == Ok::<ReplayVisibilityMode, ConfigError>(v),
            None => r matches Err(ConfigError::ReplayVisibility { got }) && got@ == lowercase(
                name@,
            ),
        },
        visibility_mode matches Some(name) && lowercase(name@) == "public"@ ==> r == Ok::<
            ReplayVisibilityMode,
            ConfigError,
        >(ReplayVisibilityMode::Public),
        visibility_mode matches Some(name) && lowercase(name@) == "full"@ ==> r == Ok::<
            ReplayVisibilityMode,
            ConfigError,
        >(ReplayVisibilityMode::Full),
{
    match visibility_mode {
        Some(name) => replay_visibility_from_lowercase(to_lowercase(name.as_str())),
        None => Ok(ReplayVisibilityMode::Public),
    }
}

/// The debugging options of a pool.
#[derive(Clone, Copy, Debug, PartialEq, Eq, Structural)]
pub struct DebugSettings {
    /// Take state fingerprints every that many decisions; 0 turns them off.
    pub fingerprint_every_n: u32,
    /// How many recent event codes every environment keeps; 0 turns the ring off.
    pub event_ring_capacity: usize,
}

/// The debugging options, each off (0) unless given.
pub fn build_debug_config(fingerprint_every_n: Option<u32>, event_ring_capacity: Option<usize>) -> (d:
    DebugSettings)
    ensures
        d.fingerprint_every_n == (match fingerprint_every_n {
            Some(n) => n,
            None => 0,
        }),
        d.event_ring_capacity == (match event_ring_capacity {
            Some(c) => c,
            None => 0,
        }),
{
    DebugSettings {
        fingerprint_every_n: match fingerprint_every_n {
            Some(n) => n,
            None => 0,
        },
        event_ring_capacity: match event_ring_capacity {
            Some(c) => c,
            None => 0,
        },
    }
}

/// The game options of every environment of a pool, apart from the card
/// database and the reward shaping, which the engine checks itself.
pub struct EnvSettings {
    /// The deck of each of the two players, as card ids.
    pub deck_lists: [Vec<u32>; 2],
    /// The id of each of the two decks.
    pub deck_ids: [u32; 2],
    pub max_decisions: u32,
    pub max_ticks: u32,
    pub error_policy: ErrorPolicy,
    pub observation_visibility: ObservationVisibility,
}

/// Assembles the game options: there must be exactly two deck lists and,
/// when deck ids are given, exactly two of them; without deck ids the decks
/// are numbered 0 and 1.
pub fn build_env_config(
    deck_lists: Vec<Vec<u32>>,
    deck_ids: Option<Vec<u32>>,
    max_decisions: u32,
    max_ticks: u32,
    error_policy: ErrorPolicy,
    observation_visibility: ObservationVisibility,
) -> (r: Result<EnvSettings, ConfigError>)
    ensures
        deck_lists@.len() != 2 ==> r == Err::<EnvSettings, ConfigError>(ConfigError::DeckListsLen),
        deck_lists@.len() == 2 ==> (deck_ids matches Some(ids) && ids@.len() != 2 ==> r == Err::<
            EnvSettings,
            ConfigError,
        >(ConfigError::DeckIdsLen)),
        deck_lists@.len() == 2 && (deck_ids matches Some(ids) ==> ids@.len() == 2) ==> (r matches Ok(
            s,
        ) && {
            &&& s.deck_lists[0]@ == deck_lists@[0]@
            &&& s.deck_lists[1]@ == deck_lists@[1]@
            &&& s.deck_ids@ == (match deck_ids {
                Some(ids) => ids@,
                None => seq![0u32, 1u32],
            })
            &&& s.max_decisions == max_decisions
            &&& s.max_ticks == max_ticks
            &&& s.error_policy == error_policy
            &&& s.observation_visibility == observation_visibility
        }),
{
    if deck_lists.len() != 2 {
        return Err(ConfigError::DeckListsLen);
    }
    let ids = match deck_ids {
        Some(ids) => ids,
        None => {
            let mut ids = Vec::new();
            ids.push(0u32);
            ids.push(1u32);
            ids
        },
    };
    if ids.len() != 2 {
        return Err(ConfigError::DeckIdsLen);
    }
    let ghost given = deck_lists@;
    let mut deck_lists = deck_lists;
    let second = deck_lists.pop().unwrap();
    let first = deck_lists.pop().unwrap();
    assert(first == given[0]);
    assert(second == given[1]);
    let first_id = ids[0];
    let second_id = ids[1];
    let settings = EnvSettings {
        deck_lists: [first, second],
        deck_ids: [first_id, second_id],
        max_decisions,
        max_ticks,
        error_policy,
        observation_visibility,
    };
    assert(settings.deck_ids@ =~= ids@);
    Ok(settings)
}

/// The options of replay recording, apart from the sampling rate.
pub struct ReplaySettings {
    /// The directory replays are written to.
    pub out_dir: String,
    pub compress: bool,
    pub include_trigger_card_id: bool,
    pub visibility_mode: ReplayVisibilityMode,
    pub store_actions: bool,
}

/// Assembles the replay options: the visibility is read as
/// `parse_replay_visibility_mode` reads it, and without a directory replays
/// go to `replays`.
pub fn replay_settings(
    out_dir: Option<String>,
    compress: bool,
    include_trigger_card_id: bool,
    visibility_mode: Option<String>,
    store_actions: bool,
) -> (r: Result<ReplaySettings, ConfigError>)
    ensures
        visibility_mode is None ==> r is Ok,
        visibility_mode matches Some(name) ==> match replay_visibility_named(lowercase(name@)) {
            Some(_) => r is Ok,
            None => r matches Err(ConfigError::ReplayVisibility { got }) && got@ == lowercase(
                name@,
            ),
        },
        r matches Ok(s) ==> {
            &&& s.out_dir@ == (match out_dir {
                Some(d) => d@,
                None => "replays"@,
            })
            &&& s.compress == compress
            &&& s.include_trigger_card_id == include_trigger_card_id
            &&& visibility_mode is None ==> s.visibility_mode == ReplayVisibilityMode::Public
            &&& visibility_mode matches Some(name) ==> replay_visibility_named(lowercase(name@))
                == Some(s.visibility_mode)
            &&& s.store_actions == store_actions
        },
{
    let visibility_mode = parse_replay_visibility_mode(visibility_mode)?;
    let out_dir = match out_dir {
        Some(d) => d,
        None => "replays".to_owned(),
    };
    Ok(ReplaySettings { out_dir, compress, include_trigger_card_id, visibility_mode, store_actions })
}

/// Checks that a pool is asked for at least one environment.
pub fn ensure_num_envs(num_envs: usize) -> (r: Result<(), ConfigError>)
    ensures
        r is Ok <==> num_envs > 0,
        num_envs == 0 ==> r == Err::<(), ConfigError>(ConfigError::ZeroEnvs),
{
    if num_envs == 0 {
        return Err(ConfigError::ZeroEnvs);
    }
    Ok(())
}

} // verus!
