use laplace_interfaces::domain::tui::{PanelType, Tier, TuiCapabilities};

#[test]
fn tui_tier_ordering() {
    assert!(Tier::Free < Tier::Pro);
    assert!(Tier::Pro < Tier::Ultra);
    assert!(Tier::Ultra < Tier::Enterprise);
}

#[test]
fn tier_priorities() {
    assert_eq!(Tier::Free.priority(), 0);
    assert_eq!(Tier::Enterprise.priority(), 3);
}

#[test]
fn free_tier_capabilities() {
    let caps = TuiCapabilities::free();
    assert_eq!(caps.tier, Tier::Free);
    assert!(!caps.enable_ttd);
    assert!(!caps.is_authenticated);
    assert_eq!(caps.allowed_panels.len(), 2);
    assert!(caps.has_panel(PanelType::Kraken));
    assert!(!caps.has_panel(PanelType::Sovereign));
}

#[test]
fn enterprise_tier_capabilities() {
    let caps = TuiCapabilities::enterprise();
    assert_eq!(caps.tier, Tier::Enterprise);
    assert!(caps.enable_ttd);
    assert!(caps.is_authenticated);
    assert_eq!(caps.allowed_panels.len(), 8);
    assert!(caps.has_panel(PanelType::Sovereign));
    assert!(caps.has_panel(PanelType::SecurityAudit));
}

#[test]
fn signature_display() {
    let free = TuiCapabilities::free();
    let enterprise = TuiCapabilities::enterprise();

    assert!(free.signature_display().contains("Not Provided"));
    assert!(enterprise
        .signature_display()
        .contains("LAPLACE-SIG-2026-ENT-DEMO"));
}

#[test]
fn signature_display_exact_text() {
    assert_eq!(
        TuiCapabilities::free().signature_display(),
        "Laplace-Signature: Not Provided"
    );
    assert_eq!(
        TuiCapabilities::pro().signature_display(),
        "Laplace-Signature: LAPLACE-SIG-2026-PRO-DEMO ✓"
    );
}

#[test]
fn auth_display_follows_authentication() {
    assert_eq!(TuiCapabilities::free().auth_display(), "✗ Failed");
    assert_eq!(TuiCapabilities::ultra().auth_display(), "✓ Active");
}

#[test]
fn higher_tiers_keep_lower_tier_panels() {
    let tiers = [
        TuiCapabilities::free(),
        TuiCapabilities::pro(),
        TuiCapabilities::ultra(),
        TuiCapabilities::enterprise(),
    ];
    for i in 0..tiers.len() {
        for j in i..tiers.len() {
            for p in tiers[i].allowed_panels.iter() {
                assert!(tiers[j].has_panel(*p));
            }
        }
    }
    assert_eq!(TuiCapabilities::pro().allowed_panels.len(), 4);
    assert_eq!(TuiCapabilities::ultra().allowed_panels.len(), 6);
}

#[test]
fn has_any_panel_checks_each() {
    let caps = TuiCapabilities::pro();
    assert!(caps.has_any_panel(&[PanelType::Sovereign, PanelType::ApiStats]));
    assert!(!caps.has_any_panel(&[PanelType::Sovereign, PanelType::ChaosRadar]));
    assert!(!caps.has_any_panel(&[]));
}

#[test]
fn tier_display_names() {
    assert_eq!(Tier::Free.display_name(), "Free");
    assert_eq!(Tier::Ultra.display_name(), "Ultra");
    assert_eq!(Tier::Ultra.priority(), 2);
}
