//! What an operation asks of the ledger: payments, asset movements and the release of custody.
//!
//! The marketplace never moves anything itself. Each operation returns the requests that
//! the ledger runtime is to carry out with it in one atomic unit; the runtime discards the
//! whole unit, the updated records included, if any request fails.
//!
//! What the ledger does with a request is written down here as a function on the holdings
//! of an asset, together with the condition under which the ledger can do it. The laws of
//! the marketplace are proved of these functions.

use vstd::prelude::*;
use crate::pubkey::Pubkey;

verus! {

/// One account that an instruction names, and what the instruction needs of it.
#[derive(Clone, Copy, Debug, PartialEq, Eq)]
pub struct AccountMeta {
    /// The address of the account.
    pub pubkey: Pubkey,
    /// Whether the account must have signed.
    pub is_signer: bool,
    /// Whether the instruction may change the account.
    pub is_writable: bool,
}

/// An instruction for the ledger runtime, in plain values.
#[derive(Clone, Debug, PartialEq, Eq)]
pub struct Instruction {
    /// The program that executes the instruction.
    pub program_id: Pubkey,
    /// The accounts that the instruction names, in order.
    pub accounts: Vec<AccountMeta>,
    /// What the program is to do, in the program's own encoding.
    pub data: Vec<u8>,
}

impl View for AccountMeta {
    type V = (Seq<u8>, bool, bool);

    open spec fn view(&self) -> (Seq<u8>, bool, bool) {
        (self.pubkey@, self.is_signer, self.is_writable)
    }
}

impl View for Instruction {
    type V = (Seq<u8>, Seq<(Seq<u8>, bool, bool)>, Seq<u8>);

    open spec fn view(&self) -> (Seq<u8>, Seq<(Seq<u8>, bool, bool)>, Seq<u8>) {
        (self.program_id@, self.accounts@.map_values(|meta: AccountMeta| meta@), self.data@)
    }
}

/// The instruction by which the runtime's system program moves `lamports` of funds from
/// wallet `from` to wallet `to`: the program, the accounts named, and the encoded request.
pub uninterp spec fn system_transfer_instruction(from: Seq<u8>, to: Seq<u8>, lamports: u64) -> (
    Seq<u8>,
    Seq<(Seq<u8>, bool, bool)>,
    Seq<u8>,
);

/// Calls `system_instruction::transfer` of the runtime's program library and copies the
/// instruction it builds into plain values. The contract claims that the instruction is a
/// function of the two wallets and the amount, and that it names two accounts: the paying
/// wallet, which must have signed and may be changed, and then the paid wallet, which may
/// be changed.
#[verifier::external_body]
#[allow(deprecated)]
fn system_transfer(from: &Pubkey, to: &Pubkey, lamports: u64) -> (instruction: Instruction)
    ensures
        instruction@ == system_transfer_instruction(from@, to@, lamports),
        instruction.accounts@ == seq![
            AccountMeta { pubkey: *from, is_signer: true, is_writable: true },
            AccountMeta { pubkey: *to, is_signer: false, is_writable: true },
        ],
{
    let from = anchor_lang::prelude::Pubkey::new_from_array(from.bytes);
    let to = anchor_lang::prelude::Pubkey::new_from_array(to.bytes);
    let built = anchor_lang::solana_program::system_instruction::transfer(&from, &to, lamports);
    let accounts = built.accounts.iter().map(|meta| AccountMeta {
        pubkey: Pubkey { bytes: meta.pubkey.to_bytes() },
        is_signer: meta.is_signer,
        is_writable: meta.is_writable,
    });
    let program_id = Pubkey { bytes: built.program_id.to_bytes() };
    Instruction { program_id, accounts: accounts.collect(), data: built.data }
}

/// Who authorizes a movement of assets.
#[derive(Clone, Copy, Debug, PartialEq, Eq)]
pub enum Authority {
    /// A wallet that has signed the operation.
    Wallet { key: Pubkey },
    /// The registry's derived address. It has no private key: the marketplace signs by
    /// presenting the seed material from which the runtime re-derives the address.
    Registry { admin: Pubkey, bump: u8 },
}

/// A payment of funds from one wallet to another.
#[derive(Clone, Copy, Debug, PartialEq, Eq)]
pub struct Payment {
    /// The wallet that pays; it has signed the operation.
    pub from: Pubkey,
    /// The wallet that is paid.
    pub to: Pubkey,
    /// The amount of funds.
    pub amount: u64,
}

/// A movement of asset units from one holding to another.
#[derive(Clone, Copy, Debug, PartialEq, Eq)]
pub struct AssetTransfer {
    /// The address of the holding that gives.
    pub from: Pubkey,
    /// The address of the holding that receives.
    pub to: Pubkey,
    /// Who authorizes the movement.
    pub authority: Authority,
    /// The number of units.
    pub amount: u64,
}

/// The creation of the custody holding of one asset.
#[derive(Clone, Copy, Debug, PartialEq, Eq)]
pub struct CustodyOpening {
    /// The address of the custody holding.
    pub account: Pubkey,
    /// The asset that the holding is for.
    pub mint: Pubkey,
    /// Who alone may move assets out of the holding.
    pub authority: Authority,
    /// The wallet that pays what the holding costs to keep.
    pub payer: Pubkey,
}

/// The release of an emptied custody holding; what it cost to keep goes to `destination`.
#[derive(Clone, Copy, Debug, PartialEq, Eq)]
pub struct CustodyRelease {
    /// The address of the custody holding.
    pub account: Pubkey,
    /// The wallet that receives the holding cost.
    pub destination: Pubkey,
    /// Who authorizes the release.
    pub authority: Authority,
}

impl Payment {
    /// The runtime instruction that carries out this payment: a transfer by the system
    /// program that names the paying wallet as signer and then the paid wallet.
    pub fn instruction(&self) -> (instruction: Instruction)
        ensures
            instruction@ == system_transfer_instruction(self.from@, self.to@, self.amount),
            instruction.accounts@ == seq![
                AccountMeta { pubkey: self.from, is_signer: true, is_writable: true },
                AccountMeta { pubkey: self.to, is_signer: false, is_writable: true },
            ],
    {
        system_transfer(&self.from, &self.to, self.amount)
    }
}

/// What the ledger keeps of one holding of an asset.
pub struct Holding {
    /// The number of units held.
    pub units: nat,
    /// Who alone may move units out of the holding or release it.
    pub authority: Authority,
}

impl AssetTransfer {
    /// Whether the ledger can carry the movement out on `holdings`, the holdings of the
    /// asset that exist, by address: both holdings exist, the giving one has enough, and
    /// the movement is authorized by the authority of the giving one.
    pub open spec fn admissible(self, holdings: Map<Pubkey, Holding>) -> bool {
        &&& holdings.dom().contains(self.from)
        &&& holdings.dom().contains(self.to)
        &&& holdings[self.from].units >= self.amount
        &&& holdings[self.from].authority == self.authority
    }

    /// The holdings after the ledger has carried the movement out.
    pub open spec fn apply(self, holdings: Map<Pubkey, Holding>) -> Map<Pubkey, Holding> {
        let debited = holdings.insert(
            self.from,
            Holding {
                units: (holdings[self.from].units - self.amount) as nat,
                authority: holdings[self.from].authority,
            },
        );
        debited.insert(
            self.to,
            Holding {
                units: debited[self.to].units + self.amount as nat,
                authority: debited[self.to].authority,
            },
        )
    }

    /// A movement creates and destroys nothing: what leaves one holding arrives at the
    /// other, every other holding keeps what it had, and no holding changes hands.
    pub proof fn lemma_moves_without_loss(self, holdings: Map<Pubkey, Holding>)
        requires
            self.admissible(holdings),
        ensures
            self.apply(holdings).dom() == holdings.dom(),
            self.from != self.to ==> {
                &&& self.apply(holdings)[self.from].units == holdings[self.from].units
                    - self.amount
                &&& self.apply(holdings)[self.to].units == holdings[self.to].units + self.amount
            },
            self.from == self.to ==> self.apply(holdings) == holdings,
            forall|other: Pubkey|
                other != self.from && other != self.to && holdings.dom().contains(other)
                    ==> #[trigger] self.apply(holdings)[other] == holdings[other],
            forall|any: Pubkey|
                holdings.dom().contains(any) ==> (#[trigger] self.apply(holdings)[any]).authority
                    == holdings[any].authority,
    {
        assert(self.apply(holdings).dom() =~= holdings.dom());
        if self.from == self.to {
            assert(self.apply(holdings) =~= holdings);
        }
    }
}

impl CustodyOpening {
    /// Whether the ledger can create the custody holding: only where none exists at its
    /// address.
    pub open spec fn admissible(self, holdings: Map<Pubkey, Holding>) -> bool {
        !holdings.dom().contains(self.account)
    }

    /// The holdings after the ledger has created the custody holding, which is empty and
    /// under the authority named.
    pub open spec fn apply(self, holdings: Map<Pubkey, Holding>) -> Map<Pubkey, Holding> {
        holdings.insert(self.account, Holding { units: 0, authority: self.authority })
    }
}

impl CustodyRelease {
    /// Whether the ledger can release the custody holding: only where it exists, is empty,
    /// and the release is authorized by its authority.
    pub open spec fn admissible(self, holdings: Map<Pubkey, Holding>) -> bool {
        &&& holdings.dom().contains(self.account)
        &&& holdings[self.account].units == 0
        &&& holdings[self.account].authority == self.authority
    }

    /// The holdings after the ledger has released the custody holding.
    pub open spec fn apply(self, holdings: Map<Pubkey, Holding>) -> Map<Pubkey, Holding> {
        holdings.remove(self.account)
    }
}

} // verus!
