//! The device session: one state for the whole application, moved only by
//! presence events and by the results of the operations it asks for.
use vstd::prelude::*;
use crate::device::DeviceDetails;
use crate::error::CommandError;
use crate::observer::{DeviceIds, UsbDevice};

verus! {

#[derive(Debug, Clone, PartialEq, Eq)]
pub enum SessionState {
    Disconnected,
    Connected(DeviceDetails),
    AwaitingBootloader,
    DfuMode(UsbDevice),
    Installing,
    PostInstall,
}

/// What the session surfaces to its user.
#[derive(Debug, Clone, PartialEq, Eq)]
pub enum SessionError {
    Command(CommandError),
    /// The device came back in normal mode instead of its bootloader.
    BootloaderNotEntered,
}

/// What moves the session: presence changes and the results of operations.
#[derive(Debug, PartialEq, Eq)]
pub enum SessionEvent {
    DeviceConnected(UsbDevice),
    DeviceDisconnected(UsbDevice),
    CheckSucceeded(DeviceDetails),
    CheckFailed(CommandError),
    /// A firmware file was downloaded to this path.
    AssetStaged(String),
    InstallRequested,
    /// The bootloader command failed, or the device never came back in upgrade mode.
    BootloaderFailed(CommandError),
    InstallStarted,
    TransferFinished(Result<(), CommandError>),
    Dismissed,
}

/// What the driver must do next.
#[derive(Debug, Clone, PartialEq, Eq)]
pub enum Action {
    Nothing,
    /// Send a check request to the followed device.
    IssueCheck,
    /// Send the control command that enters the bootloader.
    EnterBootloader,
    /// Start the firmware transfer to this device.
    StartInstall(UsbDevice),
    /// Delete the staged firmware file at this path.
    RemoveAsset(String),
}

pub struct SessionView {
    pub ids: DeviceIds,
    pub state: SessionState,
    /// The device that the session follows.
    pub followed: Option<UsbDevice>,
    /// The staged firmware file.
    pub asset: Option<String>,
    pub error: Option<SessionError>,
}

pub open spec fn removal(asset: Option<String>) -> Action {
    match asset {
        Some(p) => Action::RemoveAsset(p),
        None => Action::Nothing,
    }
}

impl SessionView {
    /// The transition table of the session.
    pub open spec fn step(self, event: SessionEvent) -> (SessionView, Action) {
        match event {
            SessionEvent::DeviceConnected(d) => match self.state {
                SessionState::Disconnected => if d == self.ids.normal {
                    (SessionView { followed: Some(d), ..self }, Action::IssueCheck)
                } else {
                    (self, Action::Nothing)
                },
                SessionState::AwaitingBootloader => if d == self.ids.upgrade {
                    (SessionView { state: SessionState::DfuMode(d), followed: Some(d), ..self }, Action::StartInstall(d))
                } else if d == self.ids.normal {
                    (SessionView {
                        state: SessionState::Disconnected,
                        followed: None,
                        error: Some(SessionError::BootloaderNotEntered),
                        ..self
                    }, Action::Nothing)
                } else {
                    (self, Action::Nothing)
                },
                _ => (self, Action::Nothing),
            },
            SessionEvent::DeviceDisconnected(d) => match self.state {
                SessionState::PostInstall => (SessionView { state: SessionState::Disconnected, followed: None, ..self }, Action::Nothing),
                // A device that restarts into its bootloader leaves the bus
                // first: the session keeps waiting, with its staged file.
                SessionState::AwaitingBootloader | SessionState::DfuMode(_) | SessionState::Installing =>
                    (self, Action::Nothing),
                _ => if self.followed == Some(d) {
                    (SessionView { state: SessionState::Disconnected, followed: None, asset: None, ..self }, removal(self.asset))
                } else {
                    (self, Action::Nothing)
                },
            },
            SessionEvent::CheckSucceeded(details) => if self.state is Disconnected && self.followed is Some {
                (SessionView { state: SessionState::Connected(details), error: None, ..self }, Action::Nothing)
            } else {
                (self, Action::Nothing)
            },
            SessionEvent::CheckFailed(e) => if self.state is Disconnected && self.followed is Some {
                (SessionView { followed: None, error: Some(SessionError::Command(e)), ..self }, Action::Nothing)
            } else {
                (self, Action::Nothing)
            },
            SessionEvent::AssetStaged(path) => match self.state {
                SessionState::Disconnected | SessionState::Connected(_) =>
                    (SessionView { asset: Some(path), ..self }, removal(self.asset)),
                _ => (self, Action::RemoveAsset(path)),
            },
            SessionEvent::InstallRequested => if self.state is Connected && self.asset is Some {
                (SessionView { state: SessionState::AwaitingBootloader, ..self }, Action::EnterBootloader)
            } else {
                (self, Action::Nothing)
            },
            SessionEvent::BootloaderFailed(e) => if self.state is AwaitingBootloader {
                (SessionView {
                    state: SessionState::Disconnected,
                    followed: None,
                    error: Some(SessionError::Command(e)),
                    ..self
                }, Action::Nothing)
            } else {
                (self, Action::Nothing)
            },
            SessionEvent::InstallStarted => if self.state is DfuMode {
                (SessionView { state: SessionState::Installing, ..self }, Action::Nothing)
            } else {
                (self, Action::Nothing)
            },
            SessionEvent::TransferFinished(result) => if self.state is Installing {
                match result {
                    Ok(()) => (SessionView { state: SessionState::PostInstall, asset: None, ..self }, removal(self.asset)),
                    Err(e) => (SessionView {
                        state: SessionState::Disconnected,
                        followed: None,
                        asset: None,
                        error: Some(SessionError::Command(e)),
                        ..self
                    }, removal(self.asset)),
                }
            } else {
                (self, Action::Nothing)
            },
            SessionEvent::Dismissed => if self.state is PostInstall {
                (SessionView { state: SessionState::Disconnected, followed: None, error: None, ..self }, Action::Nothing)
            } else {
                (self, Action::Nothing)
            },
        }
    }
}

pub struct Session {
    ids: DeviceIds,
    state: SessionState,
    followed: Option<UsbDevice>,
    asset: Option<String>,
    error: Option<SessionError>,
}

impl View for Session {
    type V = SessionView;

    closed spec fn view(&self) -> SessionView {
        SessionView {
            ids: self.ids,
            state: self.state,
            followed: self.followed,
            asset: self.asset,
            error: self.error,
        }
    }
}

impl Session {
    /// A session for devices with these identities; it starts disconnected.
    pub fn new(ids: DeviceIds) -> (r: Session)
        requires
            ids.normal != ids.upgrade,
        ensures
            r@ == (SessionView {
                ids,
                state: SessionState::Disconnected,
                followed: None,
                asset: None,
                error: None,
            }),
    {
        Session { ids, state: SessionState::Disconnected, followed: None, asset: None, error: None }
    }

    pub fn state(&self) -> (r: &SessionState)
        ensures
            *r == self@.state,
    {
        &self.state
    }

    pub fn error(&self) -> (r: &Option<SessionError>)
        ensures
            *r == self@.error,
    {
        &self.error
    }

    pub fn asset(&self) -> (r: &Option<String>)
        ensures
            *r == self@.asset,
    {
        &self.asset
    }

    fn remove_asset(&mut self) -> (r: Action)
        ensures
            final(self)@ == (SessionView { asset: None, ..old(self)@ }),
            r == removal(old(self)@.asset),
    {
        match self.asset.take() {
            Some(p) => Action::RemoveAsset(p),
            None => Action::Nothing,
        }
    }

    /// Moves the session by one event and returns what to do next.
    pub fn handle(&mut self, event: SessionEvent) -> (r: Action)
        ensures
            (final(self)@, r) == old(self)@.step(event),
    {
        match event {
            SessionEvent::DeviceConnected(d) => match self.state {
                SessionState::Disconnected => {
                    if d == self.ids.normal {
                        self.followed = Some(d);
                        Action::IssueCheck
                    } else {
                        Action::Nothing
                    }
                },
                SessionState::AwaitingBootloader => {
                    if d == self.ids.upgrade {
                        self.state = SessionState::DfuMode(d);
                        self.followed = Some(d);
                        Action::StartInstall(d)
                    } else if d == self.ids.normal {
                        self.state = SessionState::Disconnected;
                        self.followed = None;
                        self.error = Some(SessionError::BootloaderNotEntered);
                        Action::Nothing
                    } else {
                        Action::Nothing
                    }
                },
                _ => Action::Nothing,
            },
            SessionEvent::DeviceDisconnected(d) => match self.state {
                SessionState::PostInstall => {
                    self.state = SessionState::Disconnected;
                    self.followed = None;
                    Action::Nothing
                },
                SessionState::AwaitingBootloader => Action::Nothing,
                SessionState::DfuMode(_) => Action::Nothing,
                SessionState::Installing => Action::Nothing,
                _ => {
                    let same = match self.followed {
                        Some(t) => t == d,
                        None => false,
                    };
                    if same {
                        self.state = SessionState::Disconnected;
                        self.followed = None;
                        self.remove_asset()
                    } else {
                        Action::Nothing
                    }
                },
            },
            SessionEvent::CheckSucceeded(details) => {
                if self.state.is_disconnected() && self.followed.is_some() {
                    self.state = SessionState::Connected(details);
                    self.error = None;
                }
                Action::Nothing
            },
            SessionEvent::CheckFailed(e) => {
                if self.state.is_disconnected() && self.followed.is_some() {
                    self.followed = None;
                    self.error = Some(SessionError::Command(e));
                }
                Action::Nothing
            },
            SessionEvent::AssetStaged(path) => match self.state {
                SessionState::Disconnected | SessionState::Connected(_) => {
                    let r = self.remove_asset();
                    self.asset = Some(path);
                    r
                },
                _ => Action::RemoveAsset(path),
            },
            SessionEvent::InstallRequested => {
                let connected = match self.state {
                    SessionState::Connected(_) => true,
                    _ => false,
                };
                if connected && self.asset.is_some() {
                    self.state = SessionState::AwaitingBootloader;
                    Action::EnterBootloader
                } else {
                    Action::Nothing
                }
            },
            SessionEvent::BootloaderFailed(e) => {
                let awaiting = match self.state {
                    SessionState::AwaitingBootloader => true,
                    _ => false,
                };
                if awaiting {
                    self.state = SessionState::Disconnected;
                    self.followed = None;
                    self.error = Some(SessionError::Command(e));
                }
                Action::Nothing
            },
            SessionEvent::InstallStarted => {
                let in_dfu = match self.state {
                    SessionState::DfuMode(_) => true,
                    _ => false,
                };
                if in_dfu {
                    self.state = SessionState::Installing;
                }
                Action::Nothing
            },
            SessionEvent::TransferFinished(result) => {
                let installing = match self.state {
                    SessionState::Installing => true,
                    _ => false,
                };
                if installing {
                    match result {
                        Ok(()) => {
                            self.state = SessionState::PostInstall;
                            self.remove_asset()
                        },
                        Err(e) => {
                            self.state = SessionState::Disconnected;
                            self.followed = None;
                            self.error = Some(SessionError::Command(e));
                            self.remove_asset()
                        },
                    }
                } else {
                    Action::Nothing
                }
            },
            SessionEvent::Dismissed => {
                let post = match self.state {
                    SessionState::PostInstall => true,
                    _ => false,
                };
                if post {
                    self.state = SessionState::Disconnected;
                    self.followed = None;
                    self.error = None;
                }
                Action::Nothing
            },
        }
    }
}

impl SessionState {
    pub fn is_disconnected(&self) -> (r: bool)
        ensures
            r == (*self is Disconnected),
    {
        match self {
            SessionState::Disconnected => true,
            _ => false,
        }
    }
}

/// From a connected device with a staged firmware file, asking for the
/// install sends the bootloader command; when the device then shows up in
/// upgrade mode, the session is in upgrade mode with that device, and in no
/// other state.
pub proof fn lemma_bootloader_then_upgrade_device(s: SessionView)
    requires
        s.state is Connected,
        s.asset is Some,
    ensures
        s.step(SessionEvent::InstallRequested).1 == Action::EnterBootloader,
        s.step(SessionEvent::InstallRequested).0.state == SessionState::AwaitingBootloader,
        s.step(SessionEvent::InstallRequested).0.step(SessionEvent::DeviceConnected(s.ids.upgrade)).0.state
            == SessionState::DfuMode(s.ids.upgrade),
        s.step(SessionEvent::InstallRequested).0.step(SessionEvent::DeviceConnected(s.ids.upgrade)).1
            == Action::StartInstall(s.ids.upgrade),
{
}

/// The whole path into upgrade mode: from a connected device with a staged
/// firmware file, the install request sends the bootloader command; the
/// device then leaves the bus and comes back in upgrade mode, and the session
/// ends in upgrade mode with that device, asks for the transfer, and still
/// holds the staged file.
pub proof fn lemma_restart_into_upgrade_mode(s: SessionView, gone: UsbDevice)
    requires
        s.ids.normal != s.ids.upgrade,
        s.state is Connected,
        s.asset is Some,
    ensures
        ({
            let waiting = s.step(SessionEvent::InstallRequested).0;
            let left = waiting.step(SessionEvent::DeviceDisconnected(gone)).0;
            let back = left.step(SessionEvent::DeviceConnected(s.ids.upgrade));
            &&& s.step(SessionEvent::InstallRequested).1 == Action::EnterBootloader
            &&& left.state == SessionState::AwaitingBootloader
            &&& back.0.state == SessionState::DfuMode(s.ids.upgrade)
            &&& back.1 == Action::StartInstall(s.ids.upgrade)
            &&& back.0.asset == s.asset
        }),
{
}

} // verus!
