use steamcmd_engine::classify::OutputEvent;
use steamcmd_engine::events::{deliver, submit_code_event_name, ui_event, UiEvent};

#[test]
fn event_names() {
    assert_eq!(UiEvent::Progress("x".to_string()).name(), "steam-update-progress");
    assert_eq!(UiEvent::TwoFactorRequired.name(), "steam-2fa-required");
    assert_eq!(UiEvent::UpdateSuccess("440".to_string()).name(), "steam-update-success");
    assert_eq!(UiEvent::UpdateError("x".to_string()).name(), "steam-update-error");
    assert_eq!(submit_code_event_name(), "submit-2fa-code");
}

#[test]
fn event_payloads() {
    assert_eq!(UiEvent::Progress("50%".to_string()).payload(), Some("50%".to_string()));
    assert_eq!(UiEvent::TwoFactorRequired.payload(), None);
    assert_eq!(UiEvent::UpdateSuccess("440".to_string()).payload(), Some("440".to_string()));
    assert_eq!(UiEvent::UpdateError("bad".to_string()).payload(), Some("bad".to_string()));
}

#[test]
fn which_classifications_are_published() {
    let l = "line".to_string();
    assert_eq!(ui_event(&OutputEvent::Progress(l.clone()), 1), Some(UiEvent::Progress(l.clone())));
    assert_eq!(ui_event(&OutputEvent::TwoFactorRequired, 1), Some(UiEvent::TwoFactorRequired));
    assert_eq!(
        ui_event(&OutputEvent::Success, 440),
        Some(UiEvent::UpdateSuccess("440".to_string()))
    );
    assert_eq!(
        ui_event(&OutputEvent::Failure(l.clone()), 1),
        Some(UiEvent::UpdateError(l.clone()))
    );
    assert_eq!(ui_event(&OutputEvent::GuardRequired, 1), None);
    assert_eq!(ui_event(&OutputEvent::CredentialInvalid, 1), None);
    assert_eq!(ui_event(&OutputEvent::GuardInvalid, 1), None);
    assert_eq!(ui_event(&OutputEvent::PlatformUnsupported, 1), None);
    assert_eq!(ui_event(&OutputEvent::NoSubscription, 1), None);
    assert_eq!(ui_event(&OutputEvent::Raw(l), 1), None);
}

#[test]
fn delivery_keeps_the_order_of_the_lines() {
    let lines: Vec<String> = ["Progress: 1", "noise", "Progress: 2", "Success!", "FAILED"]
        .iter()
        .map(|s| s.to_string())
        .collect();
    assert_eq!(
        deliver(&lines, 10),
        vec![
            UiEvent::Progress("Progress: 1".to_string()),
            UiEvent::Progress("Progress: 2".to_string()),
            UiEvent::UpdateSuccess("10".to_string()),
            UiEvent::UpdateError("FAILED".to_string()),
        ]
    );
    assert_eq!(deliver(&Vec::new(), 10), Vec::<UiEvent>::new());
}

#[test]
fn delivery_is_prefix_stable() {
    let lines: Vec<String> =
        ["Progress: 1", "noise", "Two factor code:", "Success!", "ERROR x", "more"]
            .iter()
            .map(|s| s.to_string())
            .collect();
    let all = deliver(&lines, 730);
    for k in 0..=lines.len() {
        let part = deliver(&lines[..k].to_vec(), 730);
        assert!(part.len() <= all.len());
        assert_eq!(part[..], all[..part.len()]);
    }
}

#[test]
fn event_copies_are_equal() {
    let e = UiEvent::UpdateError("x".to_string());
    assert_eq!(e.clone(), e);
    let o = OutputEvent::Failure("x".to_string());
    assert_eq!(o.clone(), o);
    assert_eq!(OutputEvent::Success.clone(), OutputEvent::Success);
}
