//! Validation of a candidate credential, and its storage.
//!
//! A credential is taken on in three steps: its shape is checked, the remote
//! service is asked whether it accepts it, and it is written to the
//! credential store. Only then does the session hold it. The request and the
//! store belong to the caller; [`KeyValidation`] keeps track of the steps, so
//! that an answer out of turn cannot make the session hold a credential that
//! was not validated.

use crate::config::{is_api_key, Config};
use crate::error::SessionError;
use crate::remote::{bearer, bearer_header, is_success, status_is_success, HttpOutcome, HttpOutcomeView};
use crate::state::{credential_replaced, StateManager};
use vstd::prelude::*;

verus! {

/// What is sent to validate a credential: a GET of `url` with the header
/// `Authorization: authorization`.
#[derive(Debug)]
pub struct ValidationRequest {
    pub url: String,
    pub authorization: String,
}

/// Where a validation stands.
#[derive(Debug, Clone, Copy, PartialEq, Eq, Structural)]
pub enum KeyValidationStage {
    /// The remote service has been asked and has not answered.
    AwaitingRemote,
    /// The remote service accepted the credential; it is being stored.
    AwaitingStore,
    /// The validation is over.
    Finished,
}

/// What can happen while a credential is validated.
#[derive(Debug)]
pub enum KeyValidationEvent {
    /// The request to the remote service ended.
    Remote(HttpOutcome),
    /// The write to the credential store ended.
    Stored(Result<(), SessionError>),
}

/// How a validation ended.
#[derive(Debug)]
pub enum KeyValidationOutcome {
    /// The credential is valid and stored; the session holds it.
    Saved,
    /// The credential has the wrong shape, or the remote service refused it.
    Invalid,
    /// The remote service could not be reached: nothing is known.
    CouldNotValidate,
    /// The credential is valid and could not be stored, or the event did not
    /// fit the stage of the validation.
    Failed(SessionError),
}

/// What the caller does next.
#[derive(Debug)]
pub enum KeyValidationAction {
    /// Send the request and hand in how it ended.
    AskRemote(ValidationRequest),
    /// Write the key to the credential store and hand in how that ended.
    StoreKey(String),
    /// Nothing more: the validation is over.
    Finish(KeyValidationOutcome),
}

/// One validation of one candidate credential.
pub struct KeyValidation {
    key: String,
    stage: KeyValidationStage,
}

/// Whether the remote service accepted the credential: it answered, and
/// with a status of success.
pub open spec fn remote_accepts(outcome: HttpOutcomeView) -> bool {
    outcome matches HttpOutcomeView::Response { status, .. } && status_is_success(status)
}

/// The address at which the remote service lists its models; a credential
/// is valid if the service answers a request for it with success.
pub open spec fn models_url() -> Seq<char> {
    "https://api.groq.com/openai/v1/models"@
}

/// Whether `validation` and `first` are how the validation of `key` begins:
/// with a request to the remote service, the key as bearer token, if the key
/// has the shape of an API key; else with nothing to do but to call the key
/// invalid.
pub open spec fn validation_begun(
    key: Seq<char>,
    validation: KeyValidation,
    first: KeyValidationAction,
) -> bool {
    &&& validation.key() == key
    &&& if is_api_key(key) {
        &&& validation.stage() == KeyValidationStage::AwaitingRemote
        &&& first matches KeyValidationAction::AskRemote(request)
        &&& request.url@ == models_url()
        &&& request.authorization@ == bearer_header(key)
    } else {
        &&& validation.stage() == KeyValidationStage::Finished
        &&& first == KeyValidationAction::Finish(KeyValidationOutcome::Invalid)
    }
}

impl KeyValidation {
    /// The candidate credential.
    pub closed spec fn key(&self) -> Seq<char> {
        self.key@
    }

    /// The stage of the validation.
    pub closed spec fn stage(&self) -> KeyValidationStage {
        self.stage
    }

    /// The stage of the validation.
    pub fn current_stage(&self) -> (stage: KeyValidationStage)
        ensures
            stage == self.stage(),
    {
        self.stage
    }

    /// Begins the validation of `api_key`. A key of the wrong shape is
    /// invalid at once, and nothing is sent; for any other the remote service
    /// is to be asked, with the key as bearer token.
    pub fn begin(api_key: &str) -> (begun: (KeyValidation, KeyValidationAction))
        ensures
            validation_begun(api_key@, begun.0, begun.1),
    {
        if Config::is_valid_api_key(api_key) {
            let request: ValidationRequest = ValidationRequest {
                url: "https://api.groq.com/openai/v1/models".to_string(),
                authorization: bearer(api_key),
            };
            (
                KeyValidation { key: api_key.to_string(), stage: KeyValidationStage::AwaitingRemote },
                KeyValidationAction::AskRemote(request),
            )
        } else {
            (
                KeyValidation { key: api_key.to_string(), stage: KeyValidationStage::Finished },
                KeyValidationAction::Finish(KeyValidationOutcome::Invalid),
            )
        }
    }
}

/// Whether `event` is the one that a validation in `stage` waits for.
pub open spec fn event_fits(stage: KeyValidationStage, event: KeyValidationEvent) -> bool {
    match event {
        KeyValidationEvent::Remote(_) => stage == KeyValidationStage::AwaitingRemote,
        KeyValidationEvent::Stored(_) => stage == KeyValidationStage::AwaitingStore,
    }
}

/// Whether `event`, which fits the stage, makes the session hold the
/// credential: only a successful write to the store does.
pub open spec fn event_saves(event: KeyValidationEvent) -> bool {
    event matches KeyValidationEvent::Stored(Ok(_))
}

impl StateManager {
    /// Takes in `event` for `validation` and says what to do next.
    ///
    /// After an accepting answer of the remote service the key is to be
    /// stored; after a successful write the session holds the key, in its
    /// credential and in its configuration. Every other event ends the
    /// validation and leaves the session as it was: a refusing answer makes
    /// the key invalid, no answer leaves it unvalidated, a failed write is
    /// handed back, and an event that does not fit the stage is an invalid
    /// state.
    pub fn validate_and_save_api_key(
        &mut self,
        validation: &mut KeyValidation,
        event: KeyValidationEvent,
    ) -> (action: KeyValidationAction)
        requires
            old(self).wf(),
        ensures
            final(self).wf(),
            final(validation).key() == old(validation).key(),
            final(self)@ == if event_fits(old(validation).stage(), event) && event_saves(event) {
                credential_replaced(old(self)@, Some(old(validation).key()))
            } else {
                old(self)@
            },
            final(self).signal() == old(self).signal(),
            !(event_fits(old(validation).stage(), event) && event_saves(event)) ==> *final(self)
                == *old(self),
            !event_fits(old(validation).stage(), event) ==> {
                &&& action == KeyValidationAction::Finish(
                    KeyValidationOutcome::Failed(SessionError::InvalidState),
                )
                &&& *final(validation) == *old(validation)
                &&& *final(self) == *old(self)
            },
            event_fits(old(validation).stage(), event) ==> match event {
                KeyValidationEvent::Remote(outcome) => if remote_accepts(outcome@) {
                    &&& final(validation).stage() == KeyValidationStage::AwaitingStore
                    &&& action matches KeyValidationAction::StoreKey(key)
                    &&& key@ == old(validation).key()
                } else {
                    &&& final(validation).stage() == KeyValidationStage::Finished
                    &&& action == KeyValidationAction::Finish(
                        if outcome is Unreachable {
                            KeyValidationOutcome::CouldNotValidate
                        } else {
                            KeyValidationOutcome::Invalid
                        },
                    )
                },
                KeyValidationEvent::Stored(stored) => {
                    &&& final(validation).stage() == KeyValidationStage::Finished
                    &&& action == KeyValidationAction::Finish(
                        match stored {
                            Ok(_) => KeyValidationOutcome::Saved,
                            Err(error) => KeyValidationOutcome::Failed(error),
                        },
                    )
                },
            },
    {
        match event {
            KeyValidationEvent::Remote(outcome) => {
                if validation.stage != KeyValidationStage::AwaitingRemote {
                    return KeyValidationAction::Finish(
                        KeyValidationOutcome::Failed(SessionError::InvalidState),
                    );
                }
                match outcome {
                    HttpOutcome::Unreachable => {
                        validation.stage = KeyValidationStage::Finished;
                        KeyValidationAction::Finish(KeyValidationOutcome::CouldNotValidate)
                    },
                    HttpOutcome::Response { status, body: _ } => {
                        if is_success(status) {
                            validation.stage = KeyValidationStage::AwaitingStore;
                            KeyValidationAction::StoreKey(validation.key.clone())
                        } else {
                            validation.stage = KeyValidationStage::Finished;
                            KeyValidationAction::Finish(KeyValidationOutcome::Invalid)
                        }
                    },
                }
            },
            KeyValidationEvent::Stored(stored) => {
                if validation.stage != KeyValidationStage::AwaitingStore {
                    return KeyValidationAction::Finish(
                        KeyValidationOutcome::Failed(SessionError::InvalidState),
                    );
                }
                validation.stage = KeyValidationStage::Finished;
                match stored {
                    Ok(_) => {
                        self.replace_credential(Some(validation.key.clone()));
                        KeyValidationAction::Finish(KeyValidationOutcome::Saved)
                    },
                    Err(error) => KeyValidationAction::Finish(KeyValidationOutcome::Failed(error)),
                }
            },
        }
    }
}

} // verus!
