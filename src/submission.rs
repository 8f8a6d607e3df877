//! One submission of a task: read the deployment document, broadcast the
//! task-creation call to the contract it names, and wait for the receipt.
//! Each step that needs the outside world is an action handed to the caller,
//! whose result comes back as an event.
use crate::address::{signer_accepts, ContractAddress, Credential};
use crate::deployment::{address_from_deployment, deployment_address, ConfigError};
use vstd::prelude::*;

verus! {

/// Why a submission failed.
#[derive(Clone, Copy, Debug, PartialEq, Eq, Structural)]
pub enum SubmitError {
    /// The contract address could not be configured.
    Config(ConfigError),
    /// The signing key is absent or malformed.
    Credential,
    /// The node rejected the transaction, or could not be reached.
    Submission,
    /// The transaction was not confirmed: a timeout or a reversal.
    Confirmation,
}

/// The receipt of a confirmed transaction.
#[derive(Clone, Copy, Debug, PartialEq, Eq)]
pub struct Receipt {
    pub tx_hash: [u8; 32],
    /// Whether the transaction executed without reverting.
    pub succeeded: bool,
}

/// Where a submission stands.
#[derive(Clone, Copy, Debug, PartialEq, Eq, Structural)]
pub enum Stage {
    /// Waiting for the deployment document.
    LoadDeployment,
    /// Waiting for the node to take the transaction.
    Broadcast,
    /// Waiting for the transaction's receipt.
    Confirm,
    /// Done, with success or with an error.
    Finished,
}

/// What the outside world reports back.
pub enum SubmitEvent {
    /// The deployment file's text, or `None` where it could not be read.
    DeploymentRead(Option<String>),
    /// The hash of the broadcast transaction, or `None` where the node
    /// rejected it or could not be reached.
    Sent(Option<[u8; 32]>),
    /// The receipt, or `None` where none came in time.
    Confirmed(Option<Receipt>),
}

/// What the caller is to do next.
pub enum SubmitAction {
    /// Read the deployment file and report its text.
    ReadDeployment,
    /// Sign and broadcast the task-creation call with `name` to `address`.
    SendCreateTask { address: ContractAddress, name: String },
    /// Wait for the receipt of the transaction `tx_hash`.
    AwaitReceipt { tx_hash: [u8; 32] },
    /// The submission is over, with this outcome.
    Finish(Result<Receipt, SubmitError>),
    /// The event does not belong to the current stage: nothing to do.
    Ignore,
}

/// One attempt to create the task `name`.
pub struct Submission {
    pub name: String,
    pub stage: Stage,
}

impl Submission {
    /// Begins a submission of `name`: the first action reads the deployment file.
    pub fn new(name: String) -> (r: (Submission, SubmitAction))
        ensures
            r.0.name@ == name@,
            r.0.stage == Stage::LoadDeployment,
            r.1 is ReadDeployment,
    {
        (Submission { name, stage: Stage::LoadDeployment }, SubmitAction::ReadDeployment)
    }

    /// Takes the outcome of the last action and says what comes next.
    pub fn step(&mut self, event: SubmitEvent) -> (r: SubmitAction)
        ensures
            final(self).name@ == old(self).name@,
            match (old(self).stage, event) {
                (Stage::LoadDeployment, SubmitEvent::DeploymentRead(None)) => {
                    &&& final(self).stage == Stage::Finished
                    &&& r == SubmitAction::Finish(Err(SubmitError::Config(ConfigError::Unreadable)))
                },
                (Stage::LoadDeployment, SubmitEvent::DeploymentRead(Some(text))) => {
                    match deployment_address(text@) {
                        Ok(bytes) => {
                            &&& final(self).stage == Stage::Broadcast
                            &&& r matches SubmitAction::SendCreateTask { address, name }
                            &&& address@ == bytes
                            &&& name@ == old(self).name@
                        },
                        Err(e) => {
                            &&& final(self).stage == Stage::Finished
                            &&& r == SubmitAction::Finish(Err(SubmitError::Config(e)))
                        },
                    }
                },
                (Stage::Broadcast, SubmitEvent::Sent(None)) => {
                    &&& final(self).stage == Stage::Finished
                    &&& r == SubmitAction::Finish(Err(SubmitError::Submission))
                },
                (Stage::Broadcast, SubmitEvent::Sent(Some(tx_hash))) => {
                    &&& final(self).stage == Stage::Confirm
                    &&& r == SubmitAction::AwaitReceipt { tx_hash }
                },
                (Stage::Confirm, SubmitEvent::Confirmed(None)) => {
                    &&& final(self).stage == Stage::Finished
                    &&& r == SubmitAction::Finish(Err(SubmitError::Confirmation))
                },
                (Stage::Confirm, SubmitEvent::Confirmed(Some(receipt))) => {
                    &&& final(self).stage == Stage::Finished
                    &&& r == if receipt.succeeded {
                        SubmitAction::Finish(Ok(receipt))
                    } else {
                        SubmitAction::Finish(Err(SubmitError::Confirmation))
                    }
                },
                _ => {
                    &&& final(self).stage == old(self).stage
                    &&& r is Ignore
                },
            },
    {
        match (self.stage, event) {
            (Stage::LoadDeployment, SubmitEvent::DeploymentRead(None)) => {
                self.stage = Stage::Finished;
                SubmitAction::Finish(Err(SubmitError::Config(ConfigError::Unreadable)))
            },
            (Stage::LoadDeployment, SubmitEvent::DeploymentRead(Some(text))) => {
                match address_from_deployment(text.as_str()) {
                    Ok(address) => {
                        self.stage = Stage::Broadcast;
                        SubmitAction::SendCreateTask { address, name: self.name.clone() }
                    },
                    Err(e) => {
                        self.stage = Stage::Finished;
                        SubmitAction::Finish(Err(SubmitError::Config(e)))
                    },
                }
            },
            (Stage::Broadcast, SubmitEvent::Sent(None)) => {
                self.stage = Stage::Finished;
                SubmitAction::Finish(Err(SubmitError::Submission))
            },
            (Stage::Broadcast, SubmitEvent::Sent(Some(tx_hash))) => {
                self.stage = Stage::Confirm;
                SubmitAction::AwaitReceipt { tx_hash }
            },
            (Stage::Confirm, SubmitEvent::Confirmed(None)) => {
                self.stage = Stage::Finished;
                SubmitAction::Finish(Err(SubmitError::Confirmation))
            },
            (Stage::Confirm, SubmitEvent::Confirmed(Some(receipt))) => {
                self.stage = Stage::Finished;
                if receipt.succeeded {
                    SubmitAction::Finish(Ok(receipt))
                } else {
                    SubmitAction::Finish(Err(SubmitError::Confirmation))
                }
            },
            _ => SubmitAction::Ignore,
        }
    }
}

/// Resolves the signing credential from the raw key, which is `None` where
/// it is not set.
pub fn resolve_credential(raw: Option<String>) -> (r: Result<Credential, SubmitError>)
    ensures
        r is Ok <==> (raw matches Some(k) && signer_accepts(k@)),
        r matches Ok(c) ==> (raw matches Some(k) && c.key@ == k@),
        r matches Err(e) ==> e == SubmitError::Credential,
{
    match raw {
        None => Err(SubmitError::Credential),
        Some(k) => match Credential::from_key(k) {
            Some(c) => Ok(c),
            None => Err(SubmitError::Credential),
        },
    }
}

} // verus!
