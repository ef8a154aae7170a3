use eave_tracing::{
    ConfigError, InstallMode, RegistrationError, RegistrationManager, SlotContent, TracerConfig,
    PPM_SCALE,
};

#[test]
fn enable_disable_round_trip_exclusive_vacant() {
    let mut m = RegistrationManager::new(InstallMode::Exclusive);
    let slot = SlotContent::Vacant;
    let installed = m.enable(slot).unwrap();
    assert_eq!(installed, SlotContent::Adapter);
    assert!(m.is_installed());
    let restored = m.disable(installed);
    assert_eq!(restored, slot);
    assert!(!m.is_installed());
}

#[test]
fn enable_disable_round_trip_chained_over_foreign() {
    let mut m = RegistrationManager::new(InstallMode::Chained);
    let slot = SlotContent::Foreign(77);
    let installed = m.enable(slot).unwrap();
    assert_eq!(installed, SlotContent::Adapter);
    assert_eq!(m.chain_target(), Some(77));
    let restored = m.disable(installed);
    assert_eq!(restored, SlotContent::Foreign(77));
    assert_eq!(m.chain_target(), None);
}

#[test]
fn exclusive_refuses_an_occupied_slot() {
    let mut m = RegistrationManager::new(InstallMode::Exclusive);
    let r = m.enable(SlotContent::Foreign(5));
    assert_eq!(r, Err(RegistrationError::SlotOccupied));
    assert!(!m.is_installed());
    // the failed enable changed nothing, so disable is a no-op too
    assert_eq!(m.disable(SlotContent::Foreign(5)), SlotContent::Foreign(5));
}

#[test]
fn enable_twice_is_a_no_op() {
    let mut m = RegistrationManager::new(InstallMode::Exclusive);
    let s1 = m.enable(SlotContent::Vacant).unwrap();
    let s2 = m.enable(s1).unwrap();
    assert_eq!(s2, s1);
    assert!(m.is_installed());
}

#[test]
fn disable_twice_is_a_no_op() {
    let mut m = RegistrationManager::new(InstallMode::Chained);
    let s1 = m.enable(SlotContent::Vacant).unwrap();
    let s2 = m.disable(s1);
    assert_eq!(s2, SlotContent::Vacant);
    let s3 = m.disable(s2);
    assert_eq!(s3, SlotContent::Vacant);
}

#[test]
fn disable_leaves_a_replacing_hook_alone() {
    // someone installed their own hook over ours; disable must not
    // clobber it with the saved previous content.
    let mut m = RegistrationManager::new(InstallMode::Chained);
    let _ = m.enable(SlotContent::Foreign(7)).unwrap();
    let restored = m.disable(SlotContent::Foreign(99));
    assert_eq!(restored, SlotContent::Foreign(99));
    assert!(!m.is_installed());
}

#[test]
fn chain_target_only_in_chained_mode_over_foreign() {
    let mut exclusive = RegistrationManager::new(InstallMode::Exclusive);
    let _ = exclusive.enable(SlotContent::Vacant).unwrap();
    assert_eq!(exclusive.chain_target(), None);

    let mut chained_vacant = RegistrationManager::new(InstallMode::Chained);
    let _ = chained_vacant.enable(SlotContent::Vacant).unwrap();
    assert_eq!(chained_vacant.chain_target(), None);

    let mut chained = RegistrationManager::new(InstallMode::Chained);
    let _ = chained.enable(SlotContent::Foreign(3)).unwrap();
    assert_eq!(chained.chain_target(), Some(3));
}

#[test]
fn default_config_is_valid_and_inactive() {
    let c = TracerConfig::default();
    assert!(c.validate().is_ok());
    assert!(!c.enabled);
    assert_eq!(c.sample_rate_ppm, PPM_SCALE);
    assert_eq!(c.installation_mode, InstallMode::Exclusive);
    assert_eq!(c.buffer_capacity, 1000);
    assert_eq!(c.flush_interval_ns, 1_000_000_000);
    assert_eq!(c.sink_endpoint, String::new());
}

#[test]
fn config_validation_reports_each_broken_rule() {
    let mut c = TracerConfig::default();
    c.sample_rate_ppm = 0;
    assert_eq!(c.validate(), Err(ConfigError::SampleRateZero));
    c.sample_rate_ppm = PPM_SCALE + 1;
    assert_eq!(c.validate(), Err(ConfigError::SampleRateTooHigh));
    c.sample_rate_ppm = 1;
    c.buffer_capacity = 0;
    assert_eq!(c.validate(), Err(ConfigError::BufferCapacityZero));
    c.buffer_capacity = 1;
    assert!(c.validate().is_ok());
}
