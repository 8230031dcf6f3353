//! The decisions of the setup and settings dialogs: which input is refused,
//! what is tested and stored, and when plain HTTP may be switched on.
use vstd::prelude::*;

use crate::config::{server_url_verdict, system_language, validate_server_url, ServerUrlError};
use crate::text::{chars_of, trim, trim_ws};

verus! {

/// Why the first-run setup cannot go on.
#[derive(Debug, Clone, Copy, PartialEq, Eq, Structural)]
pub enum SetupInputError {
    /// No server address was entered.
    MissingServerUrl,
    /// No personal access token was entered.
    MissingToken,
}

/// The server address of the setup dialog, trimmed, where both fields were
/// filled: the address counts once trimmed, the token as typed.
pub fn check_setup_input(server_url: &str, token: &str) -> (r: Result<String, SetupInputError>)
    ensures
        trim_ws(server_url@).len() == 0 ==> r == Err::<String, SetupInputError>(
            SetupInputError::MissingServerUrl,
        ),
        trim_ws(server_url@).len() != 0 && token@.len() == 0 ==> r == Err::<String, SetupInputError>(
            SetupInputError::MissingToken,
        ),
        trim_ws(server_url@).len() != 0 && token@.len() != 0 ==> (r matches Ok(s) && s@ == trim_ws(
            server_url@,
        )),
{
    let trimmed = trim(server_url);
    if trimmed.is_empty() {
        return Err(SetupInputError::MissingServerUrl);
    }
    if token.is_empty() {
        return Err(SetupInputError::MissingToken);
    }
    Ok(trimmed.to_owned())
}

/// Which token a settings change is tested with.
#[derive(Debug)]
pub enum TokenSource {
    /// The token stored in the keyring, since no new one was entered.
    Stored,
    /// The token just entered, which is stored once the test passes.
    Entered(String),
}

/// What the settings dialog tests and then stores.
#[derive(Debug)]
pub struct SettingsChange {
    pub server_url: String,
    pub token: TokenSource,
    pub language: String,
    pub allow_insecure_http: bool,
}

/// Plans a settings change from the dialog's fields: the address, trimmed,
/// must pass the address checks; an empty token field keeps the stored token;
/// no language selected means `"system"`.
pub fn plan_settings_change(
    server_url: &str,
    new_token: &str,
    language_id: Option<String>,
    allow_insecure_http: bool,
) -> (r: Result<SettingsChange, ServerUrlError>)
    ensures
        match server_url_verdict(trim_ws(server_url@), allow_insecure_http) {
            Err(e) => r == Err::<SettingsChange, ServerUrlError>(e),
            Ok(_) => r matches Ok(c) && {
                &&& c.server_url@ == trim_ws(server_url@)
                &&& c.allow_insecure_http == allow_insecure_http
                &&& c.language@ == match language_id {
                    Some(l) => l@,
                    None => system_language(),
                }
                &&& new_token@.len() == 0 ==> c.token is Stored
                &&& new_token@.len() != 0 ==> (c.token matches TokenSource::Entered(t) && t@
                    == new_token@)
            },
        },
{
    let trimmed = trim(server_url);
    match validate_server_url(trimmed, allow_insecure_http) {
        Err(e) => Err(e),
        Ok(()) => {
            let token = if new_token.is_empty() {
                TokenSource::Stored
            } else {
                TokenSource::Entered(new_token.to_owned())
            };
            let language = match language_id {
                Some(l) => l,
                None => crate::config::default_language(),
            };
            Ok(SettingsChange { server_url: trimmed.to_owned(), token, language, allow_insecure_http })
        },
    }
}

/// The language ids that the settings dialog offers.
pub open spec fn offered_language(id: Seq<char>) -> bool {
    ||| id == system_language()
    ||| id == seq!['d', 'e']
    ||| id == seq!['e', 'n']
    ||| id == seq!['f', 'r']
    ||| id == seq!['e', 's']
    ||| id == seq!['p', 't']
}

fn is_two_letters(v: &[char], a: char, b: char) -> (r: bool)
    ensures
        r == (v@ == seq![a, b]),
{
    if v.len() == 2 && v[0] == a && v[1] == b {
        assert(v@ =~= seq![a, b]);
        true
    } else {
        proof {
            if v@ == seq![a, b] {
                assert(v@[0] == a && v@[1] == b);
            }
        }
        false
    }
}

fn is_system(v: &[char]) -> (r: bool)
    ensures
        r == (v@ == system_language()),
{
    if v.len() == 6 && v[0] == 's' && v[1] == 'y' && v[2] == 's' && v[3] == 't' && v[4] == 'e'
        && v[5] == 'm' {
        assert(v@ =~= system_language());
        true
    } else {
        proof {
            if v@ == system_language() {
                assert(v@[0] == 's' && v@[1] == 'y' && v@[2] == 's' && v@[3] == 't' && v@[4] == 'e'
                    && v@[5] == 'm');
            }
        }
        false
    }
}

/// The language selected when the settings dialog opens for a configured
/// language: the configured one where the dialog offers it, else `"system"`.
pub open spec fn spec_initial_language(configured: Option<Seq<char>>) -> Seq<char> {
    match configured {
        Some(l) => if offered_language(l) {
            l
        } else {
            system_language()
        },
        None => system_language(),
    }
}

/// The language selected when the settings dialog opens: the configured one
/// where the dialog offers it, else `"system"`.
pub fn initial_language_choice(configured: Option<&str>) -> (r: String)
    ensures
        r@ == spec_initial_language(
            match configured {
                Some(l) => Some(l@),
                None => None,
            },
        ),
        r@ == match configured {
            Some(l) => if offered_language(l@) {
                l@
            } else {
                system_language()
            },
            None => system_language(),
        },
{
    match configured {
        Some(l) => {
            let v = chars_of(l);
            let s = v.as_slice();
            if is_system(s) || is_two_letters(s, 'd', 'e') || is_two_letters(s, 'e', 'n')
                || is_two_letters(s, 'f', 'r') || is_two_letters(s, 'e', 's') || is_two_letters(
                s,
                'p',
                't',
            ) {
                l.to_owned()
            } else {
                crate::config::default_language()
            }
        },
        None => crate::config::default_language(),
    }
}

/// The insecure-HTTP switch of the settings window: whether it is on, and
/// whether the user has confirmed the warning that allows turning it on.
#[derive(Debug, Clone, Copy, PartialEq, Eq, Structural)]
pub struct HttpSwitchState {
    pub active: bool,
    pub confirmed: bool,
}

/// What happens to the switch.
#[derive(Debug, Clone, Copy, PartialEq, Eq, Structural)]
pub enum HttpSwitchEvent {
    /// The switch was turned on.
    TurnedOn,
    /// The switch was turned off.
    TurnedOff,
    /// "Allow HTTP anyway" was clicked in the warning.
    AllowAnyway,
    /// The warning was cancelled.
    Cancel,
}

/// What the window does in answer.
#[derive(Debug, Clone, Copy, PartialEq, Eq, Structural)]
pub enum HttpSwitchAction {
    /// Nothing more.
    Nothing,
    /// Turn the switch back off and show the warning.
    RevertAndWarn,
    /// Close the warning and turn the switch on.
    TurnOn,
}

impl HttpSwitchState {
    /// The switch as the settings window opens: on where insecure HTTP is
    /// already allowed, with nothing confirmed.
    pub fn new(active: bool) -> (r: HttpSwitchState)
        ensures
            r == (HttpSwitchState { active, confirmed: false }),
    {
        HttpSwitchState { active, confirmed: false }
    }
}

/// One step of the switch: turning it on is kept only right after the
/// warning was confirmed, and the confirmation is then used up; otherwise
/// the switch goes back off and the warning is shown.
pub open spec fn http_switch_step(s: HttpSwitchState, e: HttpSwitchEvent) -> (HttpSwitchState, HttpSwitchAction) {
    match e {
        HttpSwitchEvent::TurnedOn => if s.confirmed {
            (HttpSwitchState { active: true, confirmed: false }, HttpSwitchAction::Nothing)
        } else {
            (HttpSwitchState { active: false, confirmed: false }, HttpSwitchAction::RevertAndWarn)
        },
        HttpSwitchEvent::TurnedOff => (HttpSwitchState { active: false, confirmed: s.confirmed }, HttpSwitchAction::Nothing),
        HttpSwitchEvent::AllowAnyway => (HttpSwitchState { active: s.active, confirmed: true }, HttpSwitchAction::TurnOn),
        HttpSwitchEvent::Cancel => (s, HttpSwitchAction::Nothing),
    }
}

/// The switch after a sequence of events.
pub open spec fn http_switch_run(s: HttpSwitchState, events: Seq<HttpSwitchEvent>) -> HttpSwitchState
    decreases events.len(),
{
    if events.len() == 0 {
        s
    } else {
        http_switch_run(http_switch_step(s, events[0]).0, events.drop_first())
    }
}

/// Decides on an event of the insecure-HTTP switch; see `http_switch_step`.
pub fn on_http_switch_event(state: HttpSwitchState, event: HttpSwitchEvent) -> (r: (HttpSwitchState, HttpSwitchAction))
    ensures
        r == http_switch_step(state, event),
{
    match event {
        HttpSwitchEvent::TurnedOn => if state.confirmed {
            (HttpSwitchState { active: true, confirmed: false }, HttpSwitchAction::Nothing)
        } else {
            (HttpSwitchState { active: false, confirmed: false }, HttpSwitchAction::RevertAndWarn)
        },
        HttpSwitchEvent::TurnedOff => (HttpSwitchState { active: false, confirmed: state.confirmed }, HttpSwitchAction::Nothing),
        HttpSwitchEvent::AllowAnyway => (HttpSwitchState { active: state.active, confirmed: true }, HttpSwitchAction::TurnOn),
        HttpSwitchEvent::Cancel => (state, HttpSwitchAction::Nothing),
    }
}

/// Insecure HTTP is switched on only through the warning: starting from a
/// switch that is off with nothing confirmed, whatever happens, the switch
/// ends up on only if "Allow HTTP anyway" was clicked on the way.
pub proof fn law_http_on_only_after_confirmation(s: HttpSwitchState, events: Seq<HttpSwitchEvent>)
    requires
        !s.active,
        !s.confirmed,
    ensures
        http_switch_run(s, events).active ==> events.contains(HttpSwitchEvent::AllowAnyway),
    decreases events.len(),
{
    if events.len() > 0 {
        let next = http_switch_step(s, events[0]).0;
        if events[0] != HttpSwitchEvent::AllowAnyway {
            law_http_on_only_after_confirmation(next, events.drop_first());
            if http_switch_run(s, events).active {
                let i = choose|i: int| 0 <= i < events.drop_first().len() && events.drop_first()[i] == HttpSwitchEvent::AllowAnyway;
                assert(events[i + 1] == HttpSwitchEvent::AllowAnyway);
            }
        } else {
            assert(events[0] == HttpSwitchEvent::AllowAnyway);
        }
    }
}

/// A direct toggle to on is reverted unless the warning was just confirmed,
/// and a confirmation allows one toggle only.
pub proof fn law_confirmation_allows_one_toggle(s: HttpSwitchState)
    ensures
        http_switch_step(s, HttpSwitchEvent::TurnedOn).0.active == s.confirmed,
        !http_switch_step(s, HttpSwitchEvent::TurnedOn).0.confirmed,
        !s.confirmed ==> http_switch_step(s, HttpSwitchEvent::TurnedOn).1 == HttpSwitchAction::RevertAndWarn,
{
}

/// The steps of saving new settings once the connection has been tested.
#[derive(Debug, Clone, Copy, PartialEq, Eq, Structural)]
pub enum SaveStep {
    /// Write the configuration file.
    SaveConfig,
    /// Store the access token in the keyring.
    SaveToken,
    /// Report that the settings were saved.
    Succeed,
    /// Report the failure of the last step.
    Fail,
}

/// The step after the connection test: the configuration is saved only when
/// the test passed.
pub open spec fn spec_first_save_step(connection_ok: bool) -> SaveStep {
    if connection_ok {
        SaveStep::SaveConfig
    } else {
        SaveStep::Fail
    }
}

/// The step after `step` came out `ok`: the token follows the configuration
/// where a new one was entered, and a failed step ends the saving.
pub open spec fn spec_next_save_step(step: SaveStep, ok: bool, new_token: bool) -> SaveStep {
    match step {
        SaveStep::SaveConfig => if !ok {
            SaveStep::Fail
        } else if new_token {
            SaveStep::SaveToken
        } else {
            SaveStep::Succeed
        },
        SaveStep::SaveToken => if ok {
            SaveStep::Succeed
        } else {
            SaveStep::Fail
        },
        SaveStep::Succeed => SaveStep::Succeed,
        SaveStep::Fail => SaveStep::Fail,
    }
}

/// See `spec_first_save_step`.
pub fn first_save_step(connection_ok: bool) -> (r: SaveStep)
    ensures
        r == spec_first_save_step(connection_ok),
{
    if connection_ok {
        SaveStep::SaveConfig
    } else {
        SaveStep::Fail
    }
}

/// See `spec_next_save_step`.
pub fn next_save_step(step: SaveStep, ok: bool, new_token: bool) -> (r: SaveStep)
    ensures
        r == spec_next_save_step(step, ok, new_token),
{
    match step {
        SaveStep::SaveConfig => if !ok {
            SaveStep::Fail
        } else if new_token {
            SaveStep::SaveToken
        } else {
            SaveStep::Succeed
        },
        SaveStep::SaveToken => if ok {
            SaveStep::Succeed
        } else {
            SaveStep::Fail
        },
        SaveStep::Succeed => SaveStep::Succeed,
        SaveStep::Fail => SaveStep::Fail,
    }
}

/// Nothing is saved unless the connection test passed; the token is stored
/// only when a new one was entered, and only after the configuration was
/// written; success is reported only after every step that was due worked.
pub proof fn law_saved_only_after_connection_test(
    connection_ok: bool,
    step: SaveStep,
    ok: bool,
    new_token: bool,
)
    ensures
        spec_first_save_step(connection_ok) == SaveStep::SaveConfig <==> connection_ok,
        spec_next_save_step(step, ok, new_token) == SaveStep::SaveToken <==> (step == SaveStep::SaveConfig && ok
            && new_token),
        spec_next_save_step(step, ok, new_token) == SaveStep::Succeed ==> (step == SaveStep::Succeed || (ok && (
        step == SaveStep::SaveToken || (step == SaveStep::SaveConfig && !new_token)))),
{
}

/// Every language that catalogues exist for, and the system's, stays
/// selected when the settings dialog opens; with none configured, the
/// system's is selected.
pub proof fn law_translated_languages_kept(l: Seq<char>)
    requires
        l == "system"@ || l == "de"@ || l == "en"@ || l == "fr"@ || l == "es"@ || l == "pt"@,
    ensures
        spec_initial_language(Some(l)) == l,
        spec_initial_language(None) == "system"@,
{
    reveal_strlit("system");
    reveal_strlit("de");
    reveal_strlit("en");
    reveal_strlit("fr");
    reveal_strlit("es");
    reveal_strlit("pt");
    assert("system"@ =~= system_language());
    assert("de"@ =~= seq!['d', 'e']);
    assert("en"@ =~= seq!['e', 'n']);
    assert("fr"@ =~= seq!['f', 'r']);
    assert("es"@ =~= seq!['e', 's']);
    assert("pt"@ =~= seq!['p', 't']);
}

/// The language selected on opening is always one the dialog offers: the
/// configured one, or else the system's.
pub proof fn law_initial_language_is_offered(configured: Option<Seq<char>>)
    ensures
        ({
            let r = spec_initial_language(configured);
            &&& r == "system"@ || r == "de"@ || r == "en"@ || r == "fr"@ || r == "es"@ || r == "pt"@
            &&& r == "system"@ || configured == Some(r)
        }),
{
    reveal_strlit("system");
    reveal_strlit("de");
    reveal_strlit("en");
    reveal_strlit("fr");
    reveal_strlit("es");
    reveal_strlit("pt");
    assert("system"@ =~= system_language());
    assert("de"@ =~= seq!['d', 'e']);
    assert("en"@ =~= seq!['e', 'n']);
    assert("fr"@ =~= seq!['f', 'r']);
    assert("es"@ =~= seq!['e', 's']);
    assert("pt"@ =~= seq!['p', 't']);
}

/// A failed step ends the saving: whether or not a new token was entered,
/// a configuration or token step that did not work is followed by `Fail`,
/// and after `Fail` nothing more is saved.
pub proof fn law_failed_step_ends_saving(step: SaveStep, new_token: bool, ok: bool)
    ensures
        (step == SaveStep::SaveConfig || step == SaveStep::SaveToken) ==> spec_next_save_step(step, false, new_token)
            == SaveStep::Fail,
        spec_next_save_step(SaveStep::Fail, ok, new_token) == SaveStep::Fail,
        spec_first_save_step(false) == SaveStep::Fail,
{
}

} // verus!
