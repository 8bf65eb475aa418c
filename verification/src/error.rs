//! Why a node could not be started.

use vstd::prelude::*;

verus! {

/// An error of the relay chain node. `E` is the error of the node service.
#[derive(Debug)]
pub enum PolkadotError<E> {
    /// The error of the service below.
    Sub(E),
    /// Any other.
    Other,
}

/// An error in getting at the relay chain, with the text that describes it.
#[derive(Debug)]
pub enum RelayChainError<E> {
    ServiceError { error: PolkadotError<E>, text: String },
    Other { text: String },
}

/// An error in starting a node.
#[derive(Debug, PartialEq, Eq)]
pub enum NodeError<E> {
    /// An error of the node service.
    Service(E),
    /// A described error.
    Other(String),
}

impl<E> RelayChainError<E> {
    /// The error that a failure to get at the relay chain comes out as: the error of the
    /// service below, where it is one, and else its description.
    pub open spec fn node_error(self) -> NodeError<E> {
        match self {
            RelayChainError::ServiceError { error: PolkadotError::Sub(error), .. } => {
                NodeError::Service(error)
            },
            RelayChainError::ServiceError { text, .. } => NodeError::Other(text),
            RelayChainError::Other { text } => NodeError::Other(text),
        }
    }

    /// Turns the error into that of the node.
    pub fn into_node_error(self) -> (error: NodeError<E>)
        ensures
            error == self.node_error(),
            match self {
                RelayChainError::ServiceError { error: PolkadotError::Sub(below), .. } => error
                    == NodeError::Service(below),
                RelayChainError::ServiceError { text, .. } => error == NodeError::<E>::Other(text),
                RelayChainError::Other { text } => error == NodeError::<E>::Other(text),
            },
    {
        match self {
            RelayChainError::ServiceError { error: PolkadotError::Sub(error), .. } => {
                NodeError::Service(error)
            },
            RelayChainError::ServiceError { text, .. } => NodeError::Other(text),
            RelayChainError::Other { text } => NodeError::Other(text),
        }
    }
}

/// An error of the service below the relay chain node comes out as itself, whatever its
/// description; every other error comes out as its own description, whatever it is.
pub proof fn law_relay_chain_errors<E>(error: RelayChainError<E>, out: NodeError<E>)
    requires
        out == error.node_error() || call_ensures(
            RelayChainError::<E>::into_node_error,
            (error,),
            out,
        ),
    ensures
        match error {
            RelayChainError::ServiceError { error: PolkadotError::Sub(below), .. } => {
                out is Service && out->Service_0 == below
            },
            RelayChainError::ServiceError { error: PolkadotError::Other, text } => {
                out is Other && out->Other_0 == text
            },
            RelayChainError::Other { text } => out is Other && out->Other_0 == text,
        },
        call_requires(RelayChainError::<E>::into_node_error, (error,)),
{
}

} // verus!
