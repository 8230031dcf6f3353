use twofauth_client::config::ServerUrlError;
use twofauth_client::settings::{
    check_setup_input, first_save_step, initial_language_choice, next_save_step, on_http_switch_event, plan_settings_change, HttpSwitchAction,
    HttpSwitchEvent, HttpSwitchState, SaveStep, SetupInputError, TokenSource,
};

#[test]
fn setup_needs_both_fields() {
    assert_eq!(check_setup_input("  ", "t"), Err(SetupInputError::MissingServerUrl));
    assert_eq!(check_setup_input("https://x.example", ""), Err(SetupInputError::MissingToken));
    assert_eq!(check_setup_input(" https://x.example ", " t "), Ok("https://x.example".to_string()));
}

#[test]
fn settings_change_keeps_or_replaces_the_token() {
    let keep = plan_settings_change(" https://x.example ", "", None, false).unwrap();
    assert_eq!(keep.server_url, "https://x.example");
    assert!(matches!(keep.token, TokenSource::Stored));
    assert_eq!(keep.language, "system");
    let replace = plan_settings_change("http://x.example", "new", Some("de".to_string()), true).unwrap();
    assert!(matches!(replace.token, TokenSource::Entered(ref t) if t == "new"));
    assert_eq!(replace.language, "de");
    assert!(replace.allow_insecure_http);
    assert!(matches!(
        plan_settings_change("http://x.example", "new", None, false),
        Err(ServerUrlError::InsecureHttpDisabled)
    ));
}

#[test]
fn language_choice_falls_back_to_system() {
    assert_eq!(initial_language_choice(Some("fr")), "fr");
    assert_eq!(initial_language_choice(Some("system")), "system");
    assert_eq!(initial_language_choice(Some("it")), "system");
    assert_eq!(initial_language_choice(None), "system");
}

#[test]
fn http_switch_needs_confirmation() {
    let off = HttpSwitchState::new(false);
    assert_eq!(off, HttpSwitchState { active: false, confirmed: false });

    // a direct toggle is reverted and the warning shown
    let (state, action) = on_http_switch_event(off, HttpSwitchEvent::TurnedOn);
    assert_eq!(state, off);
    assert_eq!(action, HttpSwitchAction::RevertAndWarn);

    // cancelling the warning leaves the switch off
    let (state, action) = on_http_switch_event(state, HttpSwitchEvent::Cancel);
    assert_eq!(state, off);
    assert_eq!(action, HttpSwitchAction::Nothing);

    // "Allow HTTP anyway" turns it on, and the toggle that follows is kept
    let (state, action) = on_http_switch_event(state, HttpSwitchEvent::AllowAnyway);
    assert_eq!(state, HttpSwitchState { active: false, confirmed: true });
    assert_eq!(action, HttpSwitchAction::TurnOn);
    let (state, action) = on_http_switch_event(state, HttpSwitchEvent::TurnedOn);
    assert_eq!(state, HttpSwitchState { active: true, confirmed: false });
    assert_eq!(action, HttpSwitchAction::Nothing);

    // the confirmation is used up: off and on again needs a new one
    let (state, _) = on_http_switch_event(state, HttpSwitchEvent::TurnedOff);
    assert_eq!(state, off);
    let (state, action) = on_http_switch_event(state, HttpSwitchEvent::TurnedOn);
    assert_eq!(state, off);
    assert_eq!(action, HttpSwitchAction::RevertAndWarn);
}

#[test]
fn http_switch_already_allowed_stays_on() {
    let on = HttpSwitchState::new(true);
    assert_eq!(on, HttpSwitchState { active: true, confirmed: false });
    let (state, action) = on_http_switch_event(on, HttpSwitchEvent::TurnedOff);
    assert_eq!(state, HttpSwitchState { active: false, confirmed: false });
    assert_eq!(action, HttpSwitchAction::Nothing);
}

#[test]
fn settings_are_saved_after_a_passed_connection_test() {
    assert_eq!(first_save_step(false), SaveStep::Fail);
    assert_eq!(first_save_step(true), SaveStep::SaveConfig);
    assert_eq!(next_save_step(SaveStep::SaveConfig, true, true), SaveStep::SaveToken);
    assert_eq!(next_save_step(SaveStep::SaveConfig, true, false), SaveStep::Succeed);
    assert_eq!(next_save_step(SaveStep::SaveConfig, false, true), SaveStep::Fail);
    assert_eq!(next_save_step(SaveStep::SaveToken, true, true), SaveStep::Succeed);
    assert_eq!(next_save_step(SaveStep::SaveToken, false, true), SaveStep::Fail);
    assert_eq!(next_save_step(SaveStep::Fail, true, true), SaveStep::Fail);
}
