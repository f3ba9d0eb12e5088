//! The password dialog for members of encrypted archives. Extracting members
//! and opening a member share one dialog; an extraction is re-queued with the
//! password and closes the dialog, an open is retried with the password while
//! the dialog waits for the outcome.

use vstd::prelude::*;
use crate::browser::FileBrowser;
use crate::operations::{ArchivePassword, QueuedFileOperation};
use crate::paths::{FsPath, PathModel};
use crate::naming::path_views;

verus! {

/// What the dialog retries once a password is entered.
#[derive(Debug, Clone, PartialEq, Eq)]
pub enum ArchiveMemberPasswordAction {
    Extract { sources: Vec<FsPath>, destination: FsPath },
    Open { path: FsPath },
}

pub enum ActionModel {
    Extract { sources: Seq<PathModel>, destination: PathModel },
    Open { path: PathModel },
}

impl View for ArchiveMemberPasswordAction {
    type V = ActionModel;

    open spec fn view(&self) -> ActionModel {
        match self {
            ArchiveMemberPasswordAction::Extract { sources, destination } => ActionModel::Extract {
                sources: path_views(sources@),
                destination: destination@,
            },
            ArchiveMemberPasswordAction::Open { path } => ActionModel::Open { path: path@ },
        }
    }
}

/// How a retried open ended.
#[derive(Debug, Clone, PartialEq, Eq)]
pub enum ArchiveMemberOpenOutcome {
    Opened,
    InvalidPassword,
    Failed(String),
}

/// The text typed into the password field.
#[derive(Debug, Clone, PartialEq, Eq)]
pub struct ArchivePasswordDraft {
    pub text: String,
}

impl ArchivePasswordDraft {
    pub fn new(text: String) -> (draft: ArchivePasswordDraft)
        ensures
            draft.text@ == text@,
    {
        ArchivePasswordDraft { text }
    }

    pub fn as_str(&self) -> (text: &str)
        ensures
            text@ == self.text@,
    {
        self.text.as_str()
    }

    /// The password to use, `None` while the field is empty.
    pub fn to_archive_password(&self) -> (password: Option<ArchivePassword>)
        ensures
            password is None <==> self.text@.len() == 0,
            password matches Some(p) ==> p.secret_view() == self.text@,
    {
        ArchivePassword::new(self.text.clone())
    }
}

pub enum ArchiveMemberPasswordMessage {
    PasswordChanged(ArchivePasswordDraft),
    Submitted,
    /// Final outcome of an open retried for `path`.
    OpenFinished { path: FsPath, outcome: ArchiveMemberOpenOutcome },
}

#[derive(Debug, Clone, Copy, PartialEq, Eq, Structural)]
pub enum ArchiveMemberPasswordPhase {
    WaitingForPassword,
    /// An open retry is running; the dialog takes no input until it ends.
    RetryingOpen,
}

#[derive(Debug, Clone, PartialEq, Eq)]
pub struct ArchiveMemberPasswordState {
    pub action: ArchiveMemberPasswordAction,
    pub password: ArchivePasswordDraft,
    pub validation_error: Option<String>,
    pub phase: ArchiveMemberPasswordPhase,
}

pub open spec fn incorrect_password_hint() -> Seq<char> {
    "Incorrect password. Try again."@
}

pub open spec fn missing_password_hint() -> Seq<char> {
    "Enter the archive password."@
}

pub open spec fn text_option_view(text: Option<String>) -> Option<Seq<char>> {
    match text {
        Some(t) => Some(t@),
        None => None,
    }
}

impl ArchiveMemberPasswordState {
    /// A fresh dialog for `action`; after a wrong password it opens with the
    /// incorrect-password hint.
    pub fn requested(action: ArchiveMemberPasswordAction, invalid_retry: bool) -> (state: Self)
        ensures
            state.action@ == action@,
            state.action == action,
            state.password.text@.len() == 0,
            text_option_view(state.validation_error) == (if invalid_retry {
                Some(incorrect_password_hint())
            } else {
                None
            }),
            state.phase == ArchiveMemberPasswordPhase::WaitingForPassword,
    {
        let validation_error = if invalid_retry {
            Some(String::from_str("Incorrect password. Try again."))
        } else {
            None
        };
        ArchiveMemberPasswordState {
            action,
            password: ArchivePasswordDraft::new(String::new()),
            validation_error,
            phase: ArchiveMemberPasswordPhase::WaitingForPassword,
        }
    }

    pub fn action(&self) -> (action: &ArchiveMemberPasswordAction)
        ensures
            action == &self.action,
    {
        &self.action
    }

    pub fn password(&self) -> (password: &ArchivePasswordDraft)
        ensures
            password == &self.password,
    {
        &self.password
    }

    pub fn validation_error(&self) -> (error: Option<&str>)
        ensures
            error matches Some(e) ==> text_option_view(self.validation_error) == Some(e@),
            error is None <==> self.validation_error is None,
    {
        match &self.validation_error {
            Some(error) => Some(error.as_str()),
            None => None,
        }
    }

    /// The dialog takes a password only while no open retry is running.
    pub fn can_submit_password(&self) -> (can_submit: bool)
        ensures
            can_submit == (self.phase == ArchiveMemberPasswordPhase::WaitingForPassword),
    {
        self.phase == ArchiveMemberPasswordPhase::WaitingForPassword
    }

    /// Takes the edited password and clears the hint, unless a retry is running.
    pub fn update_password(&mut self, password: ArchivePasswordDraft)
        ensures
            old(self).phase == ArchiveMemberPasswordPhase::WaitingForPassword ==> *final(self) == (
            ArchiveMemberPasswordState {
                password: password,
                validation_error: None,
                ..*old(self)
            }),
            old(self).phase == ArchiveMemberPasswordPhase::RetryingOpen ==> *final(self) == *old(
                self,
            ),
    {
        if self.can_submit_password() {
            self.password = password;
            self.validation_error = None;
        }
    }

    pub fn wait_for_password(&mut self, validation_error: Option<String>)
        ensures
            *final(self) == (ArchiveMemberPasswordState {
                phase: ArchiveMemberPasswordPhase::WaitingForPassword,
                validation_error: validation_error,
                ..*old(self)
            }),
    {
        self.phase = ArchiveMemberPasswordPhase::WaitingForPassword;
        self.validation_error = validation_error;
    }

    pub fn begin_open_retry(&mut self)
        ensures
            *final(self) == (ArchiveMemberPasswordState {
                phase: ArchiveMemberPasswordPhase::RetryingOpen,
                validation_error: None,
                ..*old(self)
            }),
    {
        self.phase = ArchiveMemberPasswordPhase::RetryingOpen;
        self.validation_error = None;
    }
}

/// Outside work the dialog asks the application to start: materialise and
/// open the member `path` with `password`; its outcome comes back as
/// `ArchiveMemberPasswordMessage::OpenFinished`.
#[derive(Debug)]
pub struct ArchiveMemberOpenRequest {
    pub path: FsPath,
    pub password: ArchivePassword,
}

/// Whether the dialog's action is opening `path`.
pub open spec fn dialog_opens(state: ArchiveMemberPasswordState, path: PathModel) -> bool {
    state.action@ matches ActionModel::Open { path: p } && p == path
}

/// The dialog state after submitting, and the open retry started.
pub open spec fn submit_outcome(before: FileBrowser, after: FileBrowser, effect: Option<ArchiveMemberOpenRequest>) -> bool {
            match before.archive_member_password {
                None => after == before && effect is None,
                Some(state) => if state.phase == ArchiveMemberPasswordPhase::RetryingOpen {
                    after == before && effect is None
                } else if state.password.text@.len() == 0 {
                    &&& effect is None
                    &&& after.archive_member_password matches Some(dialog) && dialog == (
                    ArchiveMemberPasswordState { validation_error: dialog.validation_error, ..state })
                        && text_option_view(dialog.validation_error) == Some(missing_password_hint())
                    &&& after == (FileBrowser {
                        archive_member_password: after.archive_member_password,
                        ..before
                    })
                } else {
                    match state.action {
                        ArchiveMemberPasswordAction::Extract { sources, destination } => {
                            &&& effect is None
                            &&& after.operation_queue.tasks@.len()
                                == before.operation_queue.tasks@.len() + 1
                            &&& after.operation_queue.tasks@.drop_last()
                                =~= before.operation_queue.tasks@
                            &&& after.operation_queue.tasks@.last() matches
                                QueuedFileOperation::ExtractArchiveMembers {
                                sources: s,
                                destination: d,
                                password: Some(p),
                            } && s == sources && d == destination && p.secret_view()
                                == state.password.text@
                            &&& after == (FileBrowser {
                                archive_member_password: None,
                                operation_queue: after.operation_queue,
                                ..before
                            })
                            &&& after.operation_queue.panel_open
                                == before.operation_queue.panel_open
                        },
                        ArchiveMemberPasswordAction::Open { path } => {
                            &&& effect matches Some(request) && request.path@ == path@
                                && request.password.secret_view() == state.password.text@
                            &&& after.archive_member_password == Some(
                                ArchiveMemberPasswordState {
                                    phase: ArchiveMemberPasswordPhase::RetryingOpen,
                                    validation_error: None,
                                    ..state
                                },
                            )
                            &&& after == (FileBrowser {
                                archive_member_password: after.archive_member_password,
                                ..before
                            })
                        },
                    }
                },
            }
}

/// The dialog state after an open retried for `path` ended with `outcome`.
pub open spec fn open_retry_outcome(before: FileBrowser, after: FileBrowser, path: PathModel, outcome: ArchiveMemberOpenOutcome) -> bool {
    &&& after == (FileBrowser {
        archive_member_password: after.archive_member_password,
        global_error: after.global_error,
        ..before
    })
    &&& dialog_retry_outcome(
        before.archive_member_password,
        before.global_error,
        after.archive_member_password,
        after.global_error,
        path,
        outcome,
    )
}

/// What an open outcome does to the dialog and the error banner (see
/// `accept_archive_member_open_retry`).
pub open spec fn dialog_retry_outcome(
    dialog: Option<ArchiveMemberPasswordState>,
    error: Option<String>,
    next_dialog: Option<ArchiveMemberPasswordState>,
    next_error: Option<String>,
    path: PathModel,
    outcome: ArchiveMemberOpenOutcome,
) -> bool {
    if dialog is Some && dialog_opens(dialog->0, path) {
        let state = dialog->0;
        match outcome {
            ArchiveMemberOpenOutcome::Opened => next_dialog is None && next_error is None,
            ArchiveMemberOpenOutcome::InvalidPassword => {
                &&& next_dialog matches Some(shown) && shown == (ArchiveMemberPasswordState {
                    phase: ArchiveMemberPasswordPhase::WaitingForPassword,
                    validation_error: shown.validation_error,
                    ..state
                }) && text_option_view(shown.validation_error) == Some(incorrect_password_hint())
                &&& next_error == error
            },
            ArchiveMemberOpenOutcome::Failed(failure) => next_dialog is None && next_error == Some(failure),
        }
    } else {
        next_dialog == dialog && next_error == error
    }
}

fn apply_open_retry(
    dialog: &mut Option<ArchiveMemberPasswordState>,
    error: &mut Option<String>,
    path: FsPath,
    outcome: ArchiveMemberOpenOutcome,
)
    ensures
        dialog_retry_outcome(*old(dialog), *old(error), *final(dialog), *final(error), path@, outcome),
{
    let matches = match &*dialog {
        Some(state) => match &state.action {
            ArchiveMemberPasswordAction::Open { path: open_path } => open_path.same_as(&path),
            _ => false,
        },
        None => false,
    };
    if !matches {
        return ;
    }
    match outcome {
        ArchiveMemberOpenOutcome::Opened => {
            *dialog = None;
            *error = None;
        },
        ArchiveMemberOpenOutcome::InvalidPassword => {
            let mut state = dialog.take().unwrap();
            state.wait_for_password(Some(String::from_str("Incorrect password. Try again.")));
            *dialog = Some(state);
        },
        ArchiveMemberOpenOutcome::Failed(failure) => {
            *dialog = None;
            *error = Some(failure);
        },
    }
}

impl FileBrowser {
    /// Modal dialogs exclude each other: opening an archive dialog first
    /// closes the member-password dialog and the context menu.
    pub fn clear_state_for_archive_extraction(&mut self)
        ensures
            *final(self) == (FileBrowser {
                archive_member_password: None,
                context_menu: None,
                ..*old(self)
            }),
            old(self).collections_well_formed() ==> final(self).collections_well_formed(),
    {
        self.archive_member_password = None;
        self.context_menu = None;
    }

    /// Opens the dialog for `action`, replacing any other archive dialog.
    pub fn request_archive_member_password(
        &mut self,
        action: ArchiveMemberPasswordAction,
        invalid_retry: bool,
    )
        ensures
            final(self).archive_member_password matches Some(state) && state == (
            ArchiveMemberPasswordState {
                action: action,
                password: state.password,
                validation_error: state.validation_error,
                phase: ArchiveMemberPasswordPhase::WaitingForPassword,
            }) && state.password.text@.len() == 0 && text_option_view(state.validation_error) == (
            if invalid_retry {
                Some(incorrect_password_hint())
            } else {
                None
            }),
            *final(self) == (FileBrowser {
                archive_member_password: final(self).archive_member_password,
                context_menu: None,
                ..*old(self)
            }),
    {
        self.clear_state_for_archive_extraction();
        self.archive_member_password = Some(
            ArchiveMemberPasswordState::requested(action, invalid_retry),
        );
    }

    /// Submits the typed password: nothing happens without a dialog or while a
    /// retry runs; an empty field keeps the dialog with a hint; an extraction
    /// is queued with the password and the dialog closes; an open starts a
    /// retry and the dialog waits for its outcome.
    pub fn submit_archive_member_password(&mut self) -> (effect: Option<ArchiveMemberOpenRequest>)
        ensures
            submit_outcome(*old(self), *final(self), effect),
            old(self).collections_well_formed() ==> final(self).collections_well_formed(),
    {
        let mut state = match self.archive_member_password.take() {
            Some(state) => state,
            None => return None,
        };
        if !state.can_submit_password() {
            self.archive_member_password = Some(state);
            return None;
        }
        let password = match state.password.to_archive_password() {
            Some(password) => password,
            None => {
                state.wait_for_password(Some(String::from_str("Enter the archive password.")));
                self.archive_member_password = Some(state);
                return None;
            },
        };
        match state.action {
            ArchiveMemberPasswordAction::Extract { sources, destination } => {
                self.operation_queue.enqueue(
                    QueuedFileOperation::ExtractArchiveMembers {
                        sources,
                        destination,
                        password: Some(password),
                    },
                );
                None
            },
            ArchiveMemberPasswordAction::Open { path } => {
                let path_copy = path.duplicate();
                let mut state = ArchiveMemberPasswordState {
                    action: ArchiveMemberPasswordAction::Open { path },
                    password: state.password,
                    validation_error: state.validation_error,
                    phase: state.phase,
                };
                state.begin_open_retry();
                self.archive_member_password = Some(state);
                Some(ArchiveMemberOpenRequest { path: path_copy, password })
            },
        }
    }

    /// Takes the outcome of an open retried for `path`. An outcome that does
    /// not belong to the open dialog (closed, or now for another action) is
    /// dropped. `Opened` closes the dialog and clears the error banner; a wrong
    /// password returns to waiting with a hint; a failure closes the dialog and
    /// shows the error.
    pub fn accept_archive_member_open_retry(
        &mut self,
        path: FsPath,
        outcome: ArchiveMemberOpenOutcome,
    )
        ensures
            open_retry_outcome(*old(self), *final(self), path@, outcome),
    {
        apply_open_retry(&mut self.archive_member_password, &mut self.global_error, path, outcome);
    }

    /// Routes a dialog message.
    pub fn handle_archive_member_password_message(
        &mut self,
        message: ArchiveMemberPasswordMessage,
    ) -> (effect: Option<ArchiveMemberOpenRequest>)
        ensures
            message is PasswordChanged ==> effect is None,
            message is OpenFinished ==> effect is None,
            match message {
                ArchiveMemberPasswordMessage::PasswordChanged(password) => match old(
                    self,
                ).archive_member_password {
                    Some(state) => if state.phase
                        == ArchiveMemberPasswordPhase::WaitingForPassword {
                        *final(self) == (FileBrowser {
                            archive_member_password: Some(
                                ArchiveMemberPasswordState {
                                    password: password,
                                    validation_error: None,
                                    ..state
                                },
                            ),
                            ..*old(self)
                        })
                    } else {
                        *final(self) == *old(self)
                    },
                    None => *final(self) == *old(self),
                },
                ArchiveMemberPasswordMessage::Submitted => submit_outcome(*old(self), *final(self), effect),
                ArchiveMemberPasswordMessage::OpenFinished { path, outcome } => open_retry_outcome(
                    *old(self),
                    *final(self),
                    path@,
                    outcome,
                ),
            },
    {
        match message {
            ArchiveMemberPasswordMessage::PasswordChanged(password) => {
                match self.archive_member_password.take() {
                    Some(mut state) => {
                        state.update_password(password);
                        self.archive_member_password = Some(state);
                    },
                    None => {},
                }
                None
            },
            ArchiveMemberPasswordMessage::Submitted => self.submit_archive_member_password(),
            ArchiveMemberPasswordMessage::OpenFinished { path, outcome } => {
                self.accept_archive_member_open_retry(path, outcome);
                None
            },
        }
    }
}

/// Submitting a password for an open and then learning that it was wrong
/// brings the same dialog back to waiting for a password, with the typed
/// password kept and the incorrect-password hint shown; nothing is queued.
pub proof fn lemma_wrong_open_password_reprompts(
    b0: FileBrowser,
    b1: FileBrowser,
    b2: FileBrowser,
    effect: Option<ArchiveMemberOpenRequest>,
    path: PathModel,
)
    requires
        b0.archive_member_password matches Some(state) && state.action@ == (ActionModel::Open {
            path: path,
        }) && state.phase == ArchiveMemberPasswordPhase::WaitingForPassword
            && state.password.text@.len() > 0,
        submit_outcome(b0, b1, effect),
        open_retry_outcome(b1, b2, path, ArchiveMemberOpenOutcome::InvalidPassword),
    ensures
        b2.archive_member_password matches Some(after) && after.action
            == b0.archive_member_password->0.action && after.password
            == b0.archive_member_password->0.password && after.phase
            == ArchiveMemberPasswordPhase::WaitingForPassword && text_option_view(
            after.validation_error,
        ) == Some(incorrect_password_hint()),
        b2.operation_queue == b0.operation_queue,
        effect matches Some(request) && request.path@ == path,
{
}

/// Once the dialog is closed (or shows another action), an open outcome for
/// `path` leaves the whole browser unchanged.
pub proof fn lemma_stale_open_outcome_is_dropped(
    before: FileBrowser,
    after: FileBrowser,
    path: PathModel,
    outcome: ArchiveMemberOpenOutcome,
)
    requires
        before.archive_member_password is None || !dialog_opens(
            before.archive_member_password->0,
            path,
        ),
        open_retry_outcome(before, after, path, outcome),
    ensures
        after == before,
{
}

} // verus!
