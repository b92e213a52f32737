use ahoy::device::DeviceDetails;
use ahoy::error::CommandError;
use ahoy::exchange::SerialError;
use ahoy::installer::{
    bootloader_outcome, install_target, transfer_outcome, ProgressTracker, TransferFailure,
};
use ahoy::observer::{DeviceIds, UsbDevice};
use ahoy::session::{Action, Session, SessionError, SessionEvent, SessionState};

fn ids() -> DeviceIds {
    DeviceIds {
        normal: UsbDevice::new(0x0483, 0x5740),
        upgrade: UsbDevice::new(0x0483, 0xDF11),
    }
}

fn details() -> DeviceDetails {
    DeviceDetails { device_name: "Bridge 6".to_string(), ..Default::default() }
}

fn connected_with_asset() -> Session {
    let ids = ids();
    let mut s = Session::new(ids);
    assert_eq!(s.handle(SessionEvent::DeviceConnected(ids.normal)), Action::IssueCheck);
    assert_eq!(s.state(), &SessionState::Disconnected);
    assert_eq!(s.handle(SessionEvent::CheckSucceeded(details())), Action::Nothing);
    assert_eq!(s.state(), &SessionState::Connected(details()));
    assert_eq!(s.handle(SessionEvent::AssetStaged("/tmp/fw.bin".to_string())), Action::Nothing);
    s
}

#[test]
fn enter_bootloader_then_upgrade_device_goes_to_dfu_mode() {
    let ids = ids();
    let mut s = connected_with_asset();
    assert_eq!(s.handle(SessionEvent::InstallRequested), Action::EnterBootloader);
    assert_eq!(s.state(), &SessionState::AwaitingBootloader);
    assert_eq!(s.handle(SessionEvent::DeviceConnected(ids.upgrade)), Action::StartInstall(ids.upgrade));
    assert_eq!(s.state(), &SessionState::DfuMode(ids.upgrade));
}

#[test]
fn full_install_cycle() {
    let ids = ids();
    let mut s = connected_with_asset();
    s.handle(SessionEvent::InstallRequested);
    assert_eq!(s.handle(SessionEvent::DeviceDisconnected(ids.normal)), Action::Nothing);
    assert_eq!(s.state(), &SessionState::AwaitingBootloader);
    assert_eq!(s.asset(), &Some("/tmp/fw.bin".to_string()));
    assert_eq!(s.handle(SessionEvent::DeviceConnected(ids.upgrade)), Action::StartInstall(ids.upgrade));
    assert_eq!(s.handle(SessionEvent::DeviceDisconnected(ids.upgrade)), Action::Nothing);
    assert_eq!(s.handle(SessionEvent::InstallStarted), Action::Nothing);
    assert_eq!(s.state(), &SessionState::Installing);
    assert_eq!(
        s.handle(SessionEvent::TransferFinished(Ok(()))),
        Action::RemoveAsset("/tmp/fw.bin".to_string())
    );
    assert_eq!(s.state(), &SessionState::PostInstall);
    assert_eq!(s.asset(), &None);
    assert_eq!(s.handle(SessionEvent::Dismissed), Action::Nothing);
    assert_eq!(s.state(), &SessionState::Disconnected);
}

#[test]
fn failed_transfer_surfaces_error() {
    let ids = ids();
    let mut s = connected_with_asset();
    s.handle(SessionEvent::InstallRequested);
    s.handle(SessionEvent::DeviceConnected(ids.upgrade));
    s.handle(SessionEvent::InstallStarted);
    let e = CommandError::Dfu("stall".to_string());
    assert_eq!(
        s.handle(SessionEvent::TransferFinished(Err(e.clone()))),
        Action::RemoveAsset("/tmp/fw.bin".to_string())
    );
    assert_eq!(s.state(), &SessionState::Disconnected);
    assert_eq!(s.error(), &Some(SessionError::Command(e)));
}

#[test]
fn normal_device_instead_of_bootloader_is_error() {
    let ids = ids();
    let mut s = connected_with_asset();
    s.handle(SessionEvent::InstallRequested);
    assert_eq!(s.handle(SessionEvent::DeviceConnected(ids.normal)), Action::Nothing);
    assert_eq!(s.state(), &SessionState::Disconnected);
    assert_eq!(s.error(), &Some(SessionError::BootloaderNotEntered));
}

#[test]
fn bootloader_failure_is_error() {
    let mut s = connected_with_asset();
    s.handle(SessionEvent::InstallRequested);
    let e = CommandError::Device("timeout".to_string());
    s.handle(SessionEvent::BootloaderFailed(e.clone()));
    assert_eq!(s.state(), &SessionState::Disconnected);
    assert_eq!(s.error(), &Some(SessionError::Command(e)));
}

#[test]
fn failed_check_keeps_disconnected() {
    let ids = ids();
    let mut s = Session::new(ids);
    s.handle(SessionEvent::DeviceConnected(ids.normal));
    let e = CommandError::Device("no reply".to_string());
    s.handle(SessionEvent::CheckFailed(e.clone()));
    assert_eq!(s.state(), &SessionState::Disconnected);
    assert_eq!(s.error(), &Some(SessionError::Command(e)));
}

#[test]
fn install_without_asset_does_nothing() {
    let ids = ids();
    let mut s = Session::new(ids);
    s.handle(SessionEvent::DeviceConnected(ids.normal));
    s.handle(SessionEvent::CheckSucceeded(details()));
    assert_eq!(s.handle(SessionEvent::InstallRequested), Action::Nothing);
    assert_eq!(s.state(), &SessionState::Connected(details()));
}

#[test]
fn disconnect_of_followed_device_clears_asset() {
    let ids = ids();
    let mut s = connected_with_asset();
    assert_eq!(s.handle(SessionEvent::DeviceDisconnected(UsbDevice::new(1, 1))), Action::Nothing);
    assert_eq!(s.state(), &SessionState::Connected(details()));
    assert_eq!(
        s.handle(SessionEvent::DeviceDisconnected(ids.normal)),
        Action::RemoveAsset("/tmp/fw.bin".to_string())
    );
    assert_eq!(s.state(), &SessionState::Disconnected);
    assert_eq!(s.asset(), &None);
}

#[test]
fn progress_is_non_decreasing() {
    let mut t = ProgressTracker::new(100);
    let mut seen = Vec::new();
    for chunk in [10usize, 25, 0, 55, 10] {
        seen.push(t.add_chunk(chunk));
    }
    assert_eq!(seen, vec![10, 35, 35, 90, 100]);
    assert!(seen.windows(2).all(|w| w[0] <= w[1]));
}

#[test]
fn progress_caps_and_rounds_down() {
    let mut t = ProgressTracker::new(3);
    assert_eq!(t.percent(), 0);
    assert_eq!(t.add_chunk(1), 33);
    assert_eq!(t.add_chunk(100), 100);
    assert_eq!(ProgressTracker::new(0).percent(), 100);
    let mut big = ProgressTracker::new(u64::MAX);
    assert_eq!(big.add_chunk(usize::MAX), if usize::MAX as u64 == u64::MAX { 100 } else { 0 });
}

#[test]
fn transfer_reset_quirk_is_success() {
    assert_eq!(transfer_outcome(Ok(())), Ok(()));
    assert_eq!(transfer_outcome(Err(TransferFailure::DeviceReset)), Ok(()));
    assert_eq!(
        transfer_outcome(Err(TransferFailure::Failed("stall".to_string()))),
        Err(CommandError::Dfu("stall".to_string()))
    );
}

#[test]
fn install_target_prefers_given_device() {
    let ids = ids();
    let d = UsbDevice::new(5, 6);
    assert_eq!(install_target(Some(d), &ids), d);
    assert_eq!(install_target(None, &ids), ids.upgrade);
}

#[test]
fn bootloader_outcome_maps_errors() {
    assert_eq!(bootloader_outcome(Ok(String::new())), Ok(()));
    assert_eq!(
        bootloader_outcome(Err(SerialError::ReadError("x".to_string()))),
        Err(CommandError::Device("unable to enter bootloader: read error: x".to_string()))
    );
}
