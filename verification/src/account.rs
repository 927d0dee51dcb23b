//! Plain-value pictures of what a program sees of the chain: addresses, accounts,
//! and the instructions it hands to other programs.

use vstd::prelude::*;
use vstd::slice::slice_to_vec;

verus! {

/// A 32-byte account or program address.
#[derive(Debug, Clone, Copy, PartialEq, Eq)]
pub struct Address {
    pub bytes: [u8; 32],
}

impl View for Address {
    type V = Seq<u8>;

    open spec fn view(&self) -> Seq<u8> {
        self.bytes@
    }
}

impl Address {
    /// The address made of the given bytes.
    pub fn new(bytes: [u8; 32]) -> (address: Address)
        ensures
            address.bytes == bytes,
    {
        Address { bytes }
    }

    /// Two addresses with the same bytes are the same address.
    pub proof fn lemma_view_injective(self, other: Address)
        requires
            self@ == other@,
        ensures
            self == other,
    {
        assert(self.bytes =~= other.bytes);
    }

    /// Whether both addresses hold the same 32 bytes.
    pub fn same(&self, other: &Address) -> (equal: bool)
        ensures
            equal == (*self == *other),
            equal == (self@ == other@),
    {
        let mut i: usize = 0;
        while i < 32
            invariant
                i <= 32,
                forall|k: int| 0 <= k < i ==> self.bytes@[k] == other.bytes@[k],
            decreases 32 - i,
        {
            if self.bytes[i] != other.bytes[i] {
                return false;
            }
            i += 1;
        }
        proof {
            assert(self@ =~= other@);
            self.lemma_view_injective(*other);
        }
        true
    }
}

/// What a program reads and changes of one account during an instruction.
#[derive(Debug, Clone, PartialEq, Eq)]
pub struct Account {
    /// Address of the account.
    pub key: Address,
    /// Balance held by the account.
    pub lamports: u64,
    /// Storage of the account.
    pub data: Vec<u8>,
    /// Program that owns the account.
    pub owner: Address,
    /// Whether the transaction was signed with this account's key.
    pub is_signer: bool,
    /// Whether the instruction may change the account.
    pub is_writable: bool,
}

/// How an instruction uses one account.
#[derive(Debug, Clone, Copy, PartialEq, Eq)]
pub struct AccountMeta {
    /// Address of the account.
    pub pubkey: Address,
    /// Whether the account must have signed.
    pub is_signer: bool,
    /// Whether the instruction may change the account.
    pub is_writable: bool,
}

impl AccountMeta {
    /// How an instruction uses the account at the address of the given bytes.
    pub fn new(pubkey: [u8; 32], is_signer: bool, is_writable: bool) -> (meta: AccountMeta)
        ensures
            meta == (AccountMeta { pubkey: Address { bytes: pubkey }, is_signer, is_writable }),
    {
        AccountMeta { pubkey: Address { bytes: pubkey }, is_signer, is_writable }
    }
}

/// An account the instruction may change.
pub open spec fn writable(pubkey: Address, is_signer: bool) -> AccountMeta {
    AccountMeta { pubkey, is_signer, is_writable: true }
}

/// An account the instruction only reads.
pub open spec fn readonly(pubkey: Address, is_signer: bool) -> AccountMeta {
    AccountMeta { pubkey, is_signer, is_writable: false }
}

/// An instruction addressed to another program.
#[derive(Debug, Clone, PartialEq, Eq)]
pub struct Instruction {
    /// Program that executes the instruction.
    pub program_id: Address,
    /// Accounts the instruction touches, in the order the program expects.
    pub accounts: Vec<AccountMeta>,
    /// Payload handed to the program.
    pub data: Vec<u8>,
}

/// An [`Instruction`] as a mathematical value.
pub struct InstructionView {
    pub program_id: Seq<u8>,
    pub accounts: Seq<AccountMeta>,
    pub data: Seq<u8>,
}

impl View for Instruction {
    type V = InstructionView;

    open spec fn view(&self) -> InstructionView {
        InstructionView { program_id: self.program_id@, accounts: self.accounts@, data: self.data@ }
    }
}

impl Instruction {
    /// The instruction for the program at the address of the given bytes.
    pub fn new(
        program_id: [u8; 32],
        accounts: Vec<AccountMeta>,
        data: Vec<u8>,
    ) -> (instruction: Instruction)
        ensures
            instruction == (Instruction {
                program_id: Address { bytes: program_id },
                accounts,
                data,
            }),
    {
        Instruction { program_id: Address { bytes: program_id }, accounts, data }
    }
}

/// A cross-program invocation, ready to be handed to the runtime.
#[derive(Debug, Clone, PartialEq, Eq)]
pub struct Invocation {
    /// The instruction to execute.
    pub instruction: Instruction,
    /// Keys of the account handles passed along, in order.
    pub accounts: Vec<Address>,
    /// Seeds of each derived address that signs; empty for a plain invocation.
    pub signers: Vec<Vec<Vec<u8>>>,
}

/// An [`Invocation`] as a mathematical value.
pub struct InvocationView {
    pub instruction: InstructionView,
    pub accounts: Seq<Address>,
    pub signers: Seq<Seq<Seq<u8>>>,
}

impl View for Invocation {
    type V = InvocationView;

    open spec fn view(&self) -> InvocationView {
        InvocationView {
            instruction: self.instruction@,
            accounts: self.accounts@,
            signers: self.signers.deep_view(),
        }
    }
}

/// An owned copy of one signer's seeds.
pub fn owned_seeds(seeds: &[&[u8]]) -> (owned: Vec<Vec<u8>>)
    ensures
        owned.deep_view() == seeds.deep_view(),
{
    let mut owned: Vec<Vec<u8>> = Vec::new();
    let mut i: usize = 0;
    while i < seeds.len()
        invariant
            i <= seeds@.len(),
            owned@.len() == i,
            forall|k: int| 0 <= k < i ==> owned@[k]@ == seeds@[k]@,
        decreases seeds@.len() - i,
    {
        owned.push(slice_to_vec(seeds[i]));
        i += 1;
    }
    proof {
        assert(owned.deep_view() =~~= seeds.deep_view());
    }
    owned
}

/// An owned copy of the seeds of every signer.
pub fn owned_signers(signers: &[&[&[u8]]]) -> (owned: Vec<Vec<Vec<u8>>>)
    ensures
        owned.deep_view() == signers.deep_view(),
{
    let mut owned: Vec<Vec<Vec<u8>>> = Vec::new();
    let mut i: usize = 0;
    while i < signers.len()
        invariant
            i <= signers@.len(),
            owned@.len() == i,
            forall|k: int| 0 <= k < i ==> owned@[k].deep_view() == signers@[k].deep_view(),
        decreases signers@.len() - i,
    {
        owned.push(owned_seeds(signers[i]));
        i += 1;
    }
    proof {
        assert(owned.deep_view() =~= signers.deep_view());
    }
    owned
}

} // verus!
