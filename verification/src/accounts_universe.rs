use crate::account::{Account, SystemAccount};
use crate::pubkey::Pubkey;
use vstd::prelude::*;

verus! {

/// The registry: the fee schedule and the names of the known planets.
#[derive(Clone, Debug, PartialEq, Eq)]
pub struct Universe {
    /// The universe's own address.
    pub pda: Pubkey,
    /// The names of the planets, in the order of their creation.
    pub p: Vec<String>,
    /// When the universe was started.
    pub st: i64,
    /// When the universe was last updated.
    pub up: i64,
    /// The bump seed of the universe's address.
    pub bp: u8,
    /// The fee of a deposit, in lamports.
    pub cfe: u64,
    /// The fee of a planet hop, in lamports.
    pub hpfe: u64,
    /// The fee of a hop over two stars, in lamports.
    pub hsfe2: u64,
    /// The fee of a hop over three stars, in lamports.
    pub hsfe3: u64,
    /// The fee of a withdrawal, in lamports.
    pub wfe: u64,
}

/// A universe with its planet names as sequences of characters.
pub ghost struct UniverseView {
    pub pda: Pubkey,
    pub p: Seq<Seq<char>>,
    pub st: i64,
    pub up: i64,
    pub bp: u8,
    pub cfe: u64,
    pub hpfe: u64,
    pub hsfe2: u64,
    pub hsfe3: u64,
    pub wfe: u64,
}

/// The names as sequences of characters.
pub open spec fn names_view(names: Seq<String>) -> Seq<Seq<char>> {
    names.map_values(|s: String| s@)
}

impl View for Universe {
    type V = UniverseView;

    open spec fn view(&self) -> UniverseView {
        UniverseView {
            pda: self.pda,
            p: names_view(self.p@),
            st: self.st,
            up: self.up,
            bp: self.bp,
            cfe: self.cfe,
            hpfe: self.hpfe,
            hsfe2: self.hsfe2,
            hsfe3: self.hsfe3,
            wfe: self.wfe,
        }
    }
}

/// The accounts of `bang`.
#[derive(Clone, Debug, PartialEq, Eq)]
pub struct BigBang {
    /// The universe, not yet created.
    pub universe: Account<Universe>,
    /// The operator, who must be the manager.
    pub creator: SystemAccount,
}

/// The accounts of `update_fee`.
#[derive(Clone, Debug, PartialEq, Eq)]
pub struct UpdateUniverseFee {
    pub universe: Account<Universe>,
    /// The operator, who must be the manager.
    pub creator: SystemAccount,
}

} // verus!
