//! The vault in memory: the tree of a database and the passphrase that
//! opened it, for as long as a session lasts.

use vstd::prelude::*;
use crate::tree::{Group, GroupView};

verus! {

/// An opened vault. It always has a root group.
pub struct Vault {
    pub root: Group,
    pub passphrase: String,
}

/// What a [`Vault`] stands for.
pub struct VaultView {
    pub root: GroupView,
    pub passphrase: Seq<char>,
}

impl View for Vault {
    type V = VaultView;

    open spec fn view(&self) -> VaultView {
        VaultView { root: self.root@, passphrase: self.passphrase@ }
    }
}

impl VaultView {
    /// This vault with another tree.
    pub open spec fn with_root(self, root: GroupView) -> VaultView {
        VaultView { root, passphrase: self.passphrase }
    }
}

impl Vault {
    /// The vault of a database that opened under `passphrase` and holds the
    /// tree `root`.
    pub fn new(root: Group, passphrase: String) -> (vault: Vault)
        ensures
            vault@ == (VaultView { root: root@, passphrase: passphrase@ }),
    {
        Vault { root, passphrase }
    }
}

} // verus!
