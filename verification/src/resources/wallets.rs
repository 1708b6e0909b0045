//! Wallets: blockchain wallets and offramp wallets.

pub mod blockchain;
pub mod offramp;

use crate::client::{BlindPay, ClientView};
use crate::resources::wallets::blockchain::BlockchainWalletsResource;
use crate::resources::wallets::offramp::OfframpWalletsResource;
use vstd::prelude::*;

verus! {

/// The two kinds of wallet operations.
pub struct WalletsResources {
    client: BlindPay,
}

impl View for WalletsResources {
    type V = ClientView;

    closed spec fn view(&self) -> ClientView {
        self.client@
    }
}

impl WalletsResources {
    /// A handle that works with the configuration of `client`.
    pub fn new(client: BlindPay) -> (resource: Self)
        ensures
            resource@ == client@,
    {
        Self { client }
    }

    /// The operations on blockchain wallets.
    pub fn blockchain(&self) -> (resource: BlockchainWalletsResource)
        ensures
            resource@ == self@,
    {
        BlockchainWalletsResource::new(self.client.clone())
    }

    /// The operations on offramp wallets.
    pub fn offramp(&self) -> (resource: OfframpWalletsResource)
        ensures
            resource@ == self@,
    {
        OfframpWalletsResource::new(self.client.clone())
    }
}

} // verus!
