use udisks2::ata::{PowerModeStatus, PrettyUnit, SelfTestStatus, SelfTestType};
use udisks2::drive::RotationRate;
use udisks2::manager::{RaidLevel, ResizeFlags};
use udisks2::mdraid::{DeviceState, SyncAction};
use udisks2::nvme::controller::{
    SanitizeAction, SanitizeStatus, SmartCriticalWarning, SmartSelftestStatus, State,
};
use udisks2::nvme::namespace::LBAPerformance;

#[test]
fn rotation_rates() {
    assert_eq!(RotationRate::from_value(-1), RotationRate::Unknown);
    assert_eq!(RotationRate::from_value(0), RotationRate::NonRotating);
    assert_eq!(RotationRate::from_value(7200), RotationRate::Rotating(7200));
    assert_eq!(RotationRate::from_value(-2), RotationRate::Rotating(-2));
    assert_eq!(RotationRate::default(), RotationRate::NonRotating);
}

#[test]
fn raid_levels() {
    for level in [
        RaidLevel::Raid0,
        RaidLevel::Raid1,
        RaidLevel::Raid4,
        RaidLevel::Raid5,
        RaidLevel::Raid6,
        RaidLevel::Raid10,
    ] {
        assert_eq!(RaidLevel::from_str(level.as_str()), Some(level));
    }
    assert_eq!(RaidLevel::Raid10.as_str(), "raid10");
    assert_eq!(RaidLevel::from_str("raid5"), Some(RaidLevel::Raid5));
    assert_eq!(RaidLevel::from_str("raid2"), None);
    assert_eq!(RaidLevel::from_str("RAID5"), None);
}

#[test]
fn resize_flags() {
    assert_eq!(ResizeFlags::BdFsOfflineShrink.bits(), 2);
    assert_eq!(ResizeFlags::BdFsOfflineGrow.bits(), 4);
    assert_eq!(ResizeFlags::BdFsOnlineShrink.bits(), 8);
    assert_eq!(ResizeFlags::BdFsOnlineGrow.bits(), 16);
}

#[test]
fn values_that_are_numbers() {
    assert_eq!(PowerModeStatus::from_value(0x00), Some(PowerModeStatus::Standby));
    assert_eq!(PowerModeStatus::from_value(0x80), Some(PowerModeStatus::Idle));
    assert_eq!(PowerModeStatus::from_value(0xFF), Some(PowerModeStatus::Active));
    assert_eq!(PowerModeStatus::from_value(1), None);
    assert_eq!(PowerModeStatus::Idle.to_value(), 0x80);
    assert_eq!(PrettyUnit::from_value(0), Some(PrettyUnit::Unknown));
    assert_eq!(PrettyUnit::from_value(4), Some(PrettyUnit::Millikelvin));
    assert_eq!(PrettyUnit::from_value(5), None);
    assert_eq!(PrettyUnit::from_value(-1), None);
    assert_eq!(PrettyUnit::Sectors.to_value(), 3);
    assert_eq!(LBAPerformance::from_value(1), Some(LBAPerformance::Best));
    assert_eq!(LBAPerformance::from_value(4), Some(LBAPerformance::Degraded));
    assert_eq!(LBAPerformance::from_value(5), None);
    assert_eq!(LBAPerformance::Good.to_value(), 3);
}

#[test]
fn values_that_are_words() {
    assert_eq!(SelfTestType::Conveyance.as_str(), "conveyance");
    assert_eq!(SelfTestType::from_str("offline"), Some(SelfTestType::Offline));
    assert_eq!(SelfTestStatus::from_str("error_unknown"), Some(SelfTestStatus::ErrorUnknown));
    assert_eq!(SelfTestStatus::from_str("inprogress"), Some(SelfTestStatus::Inprogress));
    assert_eq!(SelfTestStatus::from_str("in_progress"), None);
    assert_eq!(SelfTestStatus::ErrorHandling.as_str(), "error_handling");
    assert_eq!(SyncAction::Repair.as_str(), "repair");
    assert_eq!(SyncAction::from_str("idle"), Some(SyncAction::Idle));
    assert_eq!(DeviceState::from_str("in_sync"), Some(DeviceState::InSync));
    assert_eq!(DeviceState::from_str("write_mostly"), Some(DeviceState::WriteMostly));
    assert_eq!(DeviceState::from_str("insync"), None);
    assert_eq!(SanitizeAction::BlockErase.as_str(), "block-erase");
    assert_eq!(SanitizeAction::from_str("crypto-erase"), Some(SanitizeAction::CryptoErase));
    assert_eq!(SanitizeStatus::NeverSanitized.as_str(), "never_sanitized");
    assert_eq!(SmartCriticalWarning::from_str("pmr_readonly"), Some(SmartCriticalWarning::PmrReadonly));
    assert_eq!(SmartCriticalWarning::VolatileMem.as_str(), "volatile_mem");
    assert_eq!(SmartSelftestStatus::from_str("ctrl_reset"), Some(SmartSelftestStatus::CtrlReset));
    assert_eq!(SmartSelftestStatus::KnownSegFail.as_str(), "known_seg_fail");
    assert_eq!(State::from_str("live"), Some(State::Live));
    assert_eq!(State::DeletingNoIO.as_str(), "deleting (no IO)");
    assert_eq!(State::from_str("deleting (no IO)"), Some(State::DeletingNoIO));
    assert_eq!(udisks2::nvme::controller::SelfTestType::VendorSpecific.as_str(), "vendor-specific");
    assert_eq!(udisks2::nvme::Transport::from_str("loop"), Some(udisks2::nvme::Transport::Loop));
    assert_eq!(udisks2::nvme::Transport::from_str("pcie"), None);
    assert_eq!(
        udisks2::nvme::fabrics::Transport::from_str("pcie"),
        Some(udisks2::nvme::fabrics::Transport::Pcie)
    );
    assert_eq!(udisks2::nvme::fabrics::Transport::Fc.as_str(), "fc");
}
