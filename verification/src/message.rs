//! Sanitized messages and transactions: the keys a transaction touches, who
//! signs, what may be written, and the instructions to run.

use crate::address::{same_address, Address, Blockhash, Signature, BPF_LOADER_UPGRADEABLE_ID};
use crate::sdk::{is_reserved_key, reserved_key};
use vstd::prelude::*;

verus! {

/// How many of a message's keys sign, and how many are read-only.
#[derive(Clone, Copy, Debug, PartialEq, Eq, Structural)]
pub struct MessageHeader {
    /// The first keys of the message: those that sign.
    pub num_required_signatures: u8,
    /// The last of the signing keys: those that are read-only.
    pub num_readonly_signed_accounts: u8,
    /// The last of the keys that do not sign: those that are read-only.
    pub num_readonly_unsigned_accounts: u8,
}

/// One instruction: its program and the accounts it touches, named by their
/// position among the message's keys, and its raw data.
#[derive(Debug, PartialEq, Eq)]
pub struct CompiledInstruction {
    pub program_id_index: u8,
    pub accounts: Vec<u8>,
    pub data: Vec<u8>,
}

/// The mathematical value of a [`CompiledInstruction`].
pub struct InstructionView {
    pub program_id_index: u8,
    pub accounts: Seq<u8>,
    pub data: Seq<u8>,
}

impl View for CompiledInstruction {
    type V = InstructionView;

    open spec fn view(&self) -> InstructionView {
        InstructionView {
            program_id_index: self.program_id_index,
            accounts: self.accounts@,
            data: self.data@,
        }
    }
}

impl Clone for CompiledInstruction {
    fn clone(&self) -> (r: Self)
        ensures
            r@ == self@,
    {
        let accounts = self.accounts.clone();
        let data = self.data.clone();
        assert(accounts@ =~= self.accounts@);
        assert(data@ =~= self.data@);
        CompiledInstruction { program_id_index: self.program_id_index, accounts, data }
    }
}

impl InstructionView {
    /// Whether the instruction touches the key at position `key_index`.
    pub open spec fn touches(self, key_index: int) -> bool {
        exists|j: int| 0 <= j < self.accounts.len() && #[trigger] self.accounts[j] == key_index
    }
}

/// The views of a list of instructions.
pub open spec fn instruction_views(instructions: Seq<CompiledInstruction>) -> Seq<InstructionView> {
    Seq::new(instructions.len(), |i: int| instructions[i]@)
}

/// The mathematical value of a [`SanitizedMessage`].
pub struct MessageView {
    pub header: MessageHeader,
    pub account_keys: Seq<Address>,
    pub recent_blockhash: Blockhash,
    pub instructions: Seq<InstructionView>,
}

impl MessageView {
    /// What makes a message sanitized: the signing keys and the read-only
    /// keys that do not sign fit among the keys, the first key is a writable
    /// signer, no instruction's program is the first key, and every
    /// position that an instruction names is the position of a key.
    pub open spec fn sanitized(self) -> bool {
        &&& self.header.num_required_signatures + self.header.num_readonly_unsigned_accounts
            <= self.account_keys.len()
        &&& self.header.num_readonly_signed_accounts < self.header.num_required_signatures
        &&& forall|i: int|
            0 <= i < self.instructions.len() ==> {
                &&& 0 < (#[trigger] self.instructions[i]).program_id_index
                    < self.account_keys.len()
                &&& forall|j: int|
                    0 <= j < self.instructions[i].accounts.len()
                        ==> #[trigger] self.instructions[i].accounts[j] < self.account_keys.len()
            }
    }

    /// Whether some instruction names the key at `key_index` as its program.
    pub open spec fn is_key_called_as_program(self, key_index: int) -> bool {
        exists|i: int|
            0 <= i < self.instructions.len() && (#[trigger] self.instructions[i]).program_id_index
                == key_index
    }

    /// Whether some instruction touches the key at `key_index`.
    pub open spec fn is_key_passed_to_program(self, key_index: int) -> bool {
        exists|i: int|
            0 <= i < self.instructions.len() && (#[trigger] self.instructions[i]).touches(
                key_index,
            )
    }

    /// Whether the key at `key_index` needs its account's state: it is not
    /// called as a program, or it is also handed to an instruction.
    pub open spec fn is_non_loader_key(self, key_index: int) -> bool {
        !self.is_key_called_as_program(key_index) || self.is_key_passed_to_program(key_index)
    }

    /// Whether the upgradeable loader is among the keys.
    pub open spec fn is_upgradeable_loader_present(self) -> bool {
        exists|i: int|
            0 <= i < self.account_keys.len() && #[trigger] self.account_keys[i]
                == BPF_LOADER_UPGRADEABLE_ID
    }

    /// Whether the key at `key_index` signs.
    pub open spec fn is_signer(self, key_index: int) -> bool {
        key_index < self.header.num_required_signatures
    }

    /// Whether the header places the key at `key_index` among the writable
    /// keys.
    pub open spec fn is_writable_position(self, key_index: int) -> bool {
        ||| key_index < self.header.num_required_signatures
            - self.header.num_readonly_signed_accounts
        ||| (self.header.num_required_signatures <= key_index < self.account_keys.len()
            - self.header.num_readonly_unsigned_accounts)
    }

    /// Whether the account at `key_index` may be written: the header places
    /// it among the writable keys, its address is not reserved, and it is
    /// not a program called without the upgradeable loader among the keys.
    pub open spec fn is_writable(self, key_index: int) -> bool {
        &&& 0 <= key_index < self.account_keys.len()
        &&& self.is_writable_position(key_index)
        &&& !reserved_key(self.account_keys[key_index]@)
        &&& !(self.is_key_called_as_program(key_index) && !self.is_upgradeable_loader_present())
    }

    /// The number of read-only keys.
    pub open spec fn num_readonly_accounts(self) -> int {
        self.header.num_readonly_signed_accounts + self.header.num_readonly_unsigned_accounts
    }

    /// The address of the program of instruction `i`.
    pub open spec fn program_id(self, i: int) -> Address {
        self.account_keys[self.instructions[i].program_id_index as int]
    }

    /// Each instruction's program address and data.
    pub open spec fn calls(self) -> Seq<(Seq<u8>, Seq<u8>)> {
        Seq::new(self.instructions.len(), |i: int| (self.program_id(i)@, self.instructions[i].data))
    }

    /// The accounts that instruction `i` touches: address, signer, writable.
    pub open spec fn decompiled_accounts(self, i: int) -> Seq<(Seq<u8>, bool, bool)> {
        Seq::new(
            self.instructions[i].accounts.len(),
            |j: int|
                {
                    let k = self.instructions[i].accounts[j] as int;
                    (self.account_keys[k]@, self.is_signer(k), self.is_writable(k))
                },
        )
    }

    /// The instructions with every position replaced by what it names.
    pub open spec fn decompiled(self) -> Seq<(Seq<u8>, Seq<(Seq<u8>, bool, bool)>, Seq<u8>)> {
        Seq::new(
            self.instructions.len(),
            |i: int| (self.program_id(i)@, self.decompiled_accounts(i), self.instructions[i].data),
        )
    }
}

/// An account that an instruction touches, by address.
#[derive(Clone, Debug, PartialEq, Eq)]
pub struct AccountMeta {
    pub pubkey: Address,
    pub is_signer: bool,
    pub is_writable: bool,
}

/// An instruction with every position replaced by what it names.
#[derive(Clone, Debug, PartialEq, Eq)]
pub struct DecompiledInstruction {
    pub program_id: Address,
    pub accounts: Vec<AccountMeta>,
    pub data: Vec<u8>,
}

impl DecompiledInstruction {
    /// The accounts as address, signer, writable.
    pub open spec fn accounts_view(self) -> Seq<(Seq<u8>, bool, bool)> {
        Seq::new(
            self.accounts@.len(),
            |j: int| (self.accounts@[j].pubkey@, self.accounts@[j].is_signer, self.accounts@[j].is_writable),
        )
    }
}

/// Decompiled instructions as program address, accounts and data.
pub open spec fn decompiled_view(instructions: Seq<DecompiledInstruction>) -> Seq<
    (Seq<u8>, Seq<(Seq<u8>, bool, bool)>, Seq<u8>),
> {
    Seq::new(
        instructions.len(),
        |i: int| (instructions[i].program_id@, instructions[i].accounts_view(), instructions[i].data@),
    )
}

/// A message that has passed sanitization.
#[derive(Debug, PartialEq, Eq)]
pub struct SanitizedMessage {
    header: MessageHeader,
    account_keys: Vec<Address>,
    recent_blockhash: Blockhash,
    instructions: Vec<CompiledInstruction>,
}

impl View for SanitizedMessage {
    type V = MessageView;

    closed spec fn view(&self) -> MessageView {
        MessageView {
            header: self.header,
            account_keys: self.account_keys@,
            recent_blockhash: self.recent_blockhash,
            instructions: instruction_views(self.instructions@),
        }
    }
}

impl SanitizedMessage {
    #[verifier::type_invariant]
    closed spec fn inv(self) -> bool {
        self@.sanitized()
    }

    /// Builds a message from its parts; `None` where they are not those of
    /// a sanitized message.
    pub fn try_new(
        header: MessageHeader,
        account_keys: Vec<Address>,
        recent_blockhash: Blockhash,
        instructions: Vec<CompiledInstruction>,
    ) -> (r: Option<Self>)
        ensures
            r is Some == (MessageView {
                header,
                account_keys: account_keys@,
                recent_blockhash,
                instructions: instruction_views(instructions@),
            }).sanitized(),
            r is Some ==> r->0@ == (MessageView {
                header,
                account_keys: account_keys@,
                recent_blockhash,
                instructions: instruction_views(instructions@),
            }),
    {
        let ghost view = MessageView {
            header,
            account_keys: account_keys@,
            recent_blockhash,
            instructions: instruction_views(instructions@),
        };
        let n = account_keys.len();
        let signers: usize = header.num_required_signatures as usize;
        let readonly_unsigned: usize = header.num_readonly_unsigned_accounts as usize;
        if signers + readonly_unsigned > n {
            return None;
        }
        if header.num_readonly_signed_accounts >= header.num_required_signatures {
            return None;
        }
        let mut i: usize = 0;
        while i < instructions.len()
            invariant
                i <= instructions@.len(),
                n == account_keys@.len(),
                view == (MessageView {
                    header,
                    account_keys: account_keys@,
                    recent_blockhash,
                    instructions: instruction_views(instructions@),
                }),
                forall|k: int|
                    0 <= k < i ==> {
                        &&& 0 < (#[trigger] view.instructions[k]).program_id_index < n
                        &&& forall|j: int|
                            0 <= j < view.instructions[k].accounts.len()
                                ==> #[trigger] view.instructions[k].accounts[j] < n
                    },
            decreases instructions@.len() - i,
        {
            let ix = &instructions[i];
            assert(view.instructions[i as int] == ix@);
            if ix.program_id_index == 0 || ix.program_id_index as usize >= n {
                assert(!view.sanitized());
                return None;
            }
            let mut j: usize = 0;
            while j < ix.accounts.len()
                invariant
                    j <= ix.accounts@.len(),
                    forall|m: int| 0 <= m < j ==> #[trigger] ix.accounts@[m] < n,
                    view.instructions[i as int] == ix@,
                    0 <= i < view.instructions.len(),
                    n == account_keys@.len(),
                    view == (MessageView {
                        header,
                        account_keys: account_keys@,
                        recent_blockhash,
                        instructions: instruction_views(instructions@),
                    }),
                decreases ix.accounts@.len() - j,
            {
                if ix.accounts[j] as usize >= n {
                    assert(!(view.instructions[i as int].accounts[j as int] < n));
                    assert(!view.sanitized());
                    return None;
                }
                j += 1;
            }
            i += 1;
        }
        Some(SanitizedMessage { header, account_keys, recent_blockhash, instructions })
    }

    /// The header.
    pub fn header(&self) -> (r: &MessageHeader)
        ensures
            *r == self@.header,
    {
        &self.header
    }

    /// The keys, in order. A message that exists as a value is sanitized.
    pub fn account_keys(&self) -> (r: &Vec<Address>)
        ensures
            r@ == self@.account_keys,
            self@.sanitized(),
    {
        proof {
            use_type_invariant(self);
        }
        &self.account_keys
    }

    /// The blockhash that the message names as recent.
    pub fn recent_blockhash(&self) -> (r: &Blockhash)
        ensures
            *r == self@.recent_blockhash,
    {
        &self.recent_blockhash
    }

    /// The instructions, in order. A message that exists as a value is
    /// sanitized.
    pub fn instructions(&self) -> (r: &Vec<CompiledInstruction>)
        ensures
            instruction_views(r@) == self@.instructions,
            self@.sanitized(),
    {
        proof {
            use_type_invariant(self);
        }
        &self.instructions
    }

    /// Whether some instruction names the key at `key_index` as its program.
    pub fn is_key_called_as_program(&self, key_index: usize) -> (r: bool)
        ensures
            r == self@.is_key_called_as_program(key_index as int),
    {
        let mut i: usize = 0;
        while i < self.instructions.len()
            invariant
                i <= self.instructions@.len(),
                forall|k: int|
                    0 <= k < i ==> (#[trigger] self@.instructions[k]).program_id_index
                        != key_index,
            decreases self.instructions@.len() - i,
        {
            assert(self@.instructions[i as int] == self.instructions@[i as int]@);
            if self.instructions[i].program_id_index as usize == key_index {
                return true;
            }
            i += 1;
        }
        false
    }

    /// Whether some instruction touches the key at `key_index`.
    pub fn is_key_passed_to_program(&self, key_index: usize) -> (r: bool)
        ensures
            r == self@.is_key_passed_to_program(key_index as int),
    {
        let mut i: usize = 0;
        while i < self.instructions.len()
            invariant
                i <= self.instructions@.len(),
                forall|k: int|
                    0 <= k < i ==> !(#[trigger] self@.instructions[k]).touches(key_index as int),
            decreases self.instructions@.len() - i,
        {
            let ix = &self.instructions[i];
            assert(self@.instructions[i as int] == ix@);
            let mut j: usize = 0;
            while j < ix.accounts.len()
                invariant
                    j <= ix.accounts@.len(),
                    forall|m: int| 0 <= m < j ==> #[trigger] ix.accounts@[m] != key_index,
                    self@.instructions[i as int] == ix@,
                    0 <= i < self@.instructions.len(),
                decreases ix.accounts@.len() - j,
            {
                if ix.accounts[j] as usize == key_index {
                    assert(ix@.accounts[j as int] == key_index);
                    return true;
                }
                j += 1;
            }
            i += 1;
        }
        false
    }

    /// Whether the key at `key_index` needs its account's state.
    pub fn is_non_loader_key(&self, key_index: usize) -> (r: bool)
        ensures
            r == self@.is_non_loader_key(key_index as int),
    {
        !self.is_key_called_as_program(key_index) || self.is_key_passed_to_program(key_index)
    }

    /// Whether the upgradeable loader is among the keys.
    pub fn is_upgradeable_loader_present(&self) -> (r: bool)
        ensures
            r == self@.is_upgradeable_loader_present(),
    {
        let mut i: usize = 0;
        while i < self.account_keys.len()
            invariant
                i <= self.account_keys@.len(),
                forall|k: int|
                    0 <= k < i ==> #[trigger] self@.account_keys[k] != BPF_LOADER_UPGRADEABLE_ID,
            decreases self.account_keys@.len() - i,
        {
            if same_address(&self.account_keys[i], &BPF_LOADER_UPGRADEABLE_ID) {
                assert(self@.account_keys[i as int] == BPF_LOADER_UPGRADEABLE_ID);
                return true;
            }
            i += 1;
        }
        false
    }

    /// Whether the key at `key_index` signs.
    pub fn is_signer(&self, key_index: usize) -> (r: bool)
        ensures
            r == self@.is_signer(key_index as int),
    {
        key_index < self.header.num_required_signatures as usize
    }

    /// Whether the account at `key_index` may be written.
    pub fn is_writable(&self, key_index: usize) -> (r: bool)
        ensures
            r == self@.is_writable(key_index as int),
    {
        proof {
            use_type_invariant(self);
        }
        let n = self.account_keys.len();
        if key_index >= n {
            return false;
        }
        let signers: usize = self.header.num_required_signatures as usize;
        let readonly_signed: usize = self.header.num_readonly_signed_accounts as usize;
        let readonly_unsigned: usize = self.header.num_readonly_unsigned_accounts as usize;
        let positioned = key_index < signers - readonly_signed || (key_index >= signers
            && key_index < n - readonly_unsigned);
        if !positioned {
            return false;
        }
        if is_reserved_key(&self.account_keys[key_index]) {
            return false;
        }
        !(self.is_key_called_as_program(key_index) && !self.is_upgradeable_loader_present())
    }

    /// The number of read-only keys.
    pub fn num_readonly_accounts(&self) -> (r: usize)
        ensures
            r == self@.num_readonly_accounts(),
    {
        self.header.num_readonly_signed_accounts as usize
            + self.header.num_readonly_unsigned_accounts as usize
    }

    /// Each instruction's program address and data, in order.
    pub fn program_instructions(&self) -> (r: Vec<(Address, Vec<u8>)>)
        ensures
            crate::sdk::calls_view(r@) == self@.calls(),
    {
        proof {
            use_type_invariant(self);
        }
        let mut calls: Vec<(Address, Vec<u8>)> = Vec::new();
        let mut i: usize = 0;
        while i < self.instructions.len()
            invariant
                self@.sanitized(),
                i <= self.instructions@.len(),
                calls@.len() == i,
                forall|k: int|
                    0 <= k < i ==> (#[trigger] calls@[k]).0 == self@.program_id(k) && calls@[k].1@
                        == self@.instructions[k].data,
            decreases self.instructions@.len() - i,
        {
            let ix = &self.instructions[i];
            assert(self@.instructions[i as int] == ix@);
            let data = ix.data.clone();
            assert(data@ =~= ix.data@);
            calls.push((self.account_keys[ix.program_id_index as usize], data));
            i += 1;
        }
        assert(crate::sdk::calls_view(calls@) =~= self@.calls());
        calls
    }

    /// The instructions with every position replaced by what it names.
    pub fn decompile_instructions(&self) -> (r: Vec<DecompiledInstruction>)
        ensures
            decompiled_view(r@) == self@.decompiled(),
    {
        proof {
            use_type_invariant(self);
        }
        let mut out: Vec<DecompiledInstruction> = Vec::new();
        let mut i: usize = 0;
        while i < self.instructions.len()
            invariant
                self@.sanitized(),
                i <= self.instructions@.len(),
                out@.len() == i,
                forall|k: int|
                    0 <= k < i ==> {
                        &&& (#[trigger] out@[k]).program_id == self@.program_id(k)
                        &&& out@[k].accounts_view() == self@.decompiled_accounts(k)
                        &&& out@[k].data@ == self@.instructions[k].data
                    },
            decreases self.instructions@.len() - i,
        {
            let ix = &self.instructions[i];
            assert(self@.instructions[i as int] == ix@);
            let mut metas: Vec<AccountMeta> = Vec::new();
            let mut j: usize = 0;
            while j < ix.accounts.len()
                invariant
                    self@.sanitized(),
                    0 <= i < self@.instructions.len(),
                    self@.instructions[i as int] == ix@,
                    j <= ix.accounts@.len(),
                    metas@.len() == j,
                    forall|m: int|
                        0 <= m < j ==> {
                            let k = ix.accounts@[m] as int;
                            &&& (#[trigger] metas@[m]).pubkey == self@.account_keys[k]
                            &&& metas@[m].is_signer == self@.is_signer(k)
                            &&& metas@[m].is_writable == self@.is_writable(k)
                        },
                decreases ix.accounts@.len() - j,
            {
                let k: usize = ix.accounts[j] as usize;
                assert(ix@.accounts[j as int] < self@.account_keys.len());
                metas.push(
                    AccountMeta {
                        pubkey: self.account_keys[k],
                        is_signer: self.is_signer(k),
                        is_writable: self.is_writable(k),
                    },
                );
                j += 1;
            }
            let data = ix.data.clone();
            assert(data@ =~= ix.data@);
            let decompiled = DecompiledInstruction {
                program_id: self.account_keys[ix.program_id_index as usize],
                accounts: metas,
                data,
            };
            assert(decompiled.accounts_view() =~= self@.decompiled_accounts(i as int));
            out.push(decompiled);
            i += 1;
        }
        assert(decompiled_view(out@) =~= self@.decompiled());
        out
    }
}

/// A sanitized message with its signatures; the first signature names the
/// transaction.
#[derive(Debug, PartialEq, Eq)]
pub struct SanitizedTransaction {
    message: SanitizedMessage,
    signatures: Vec<Signature>,
}

impl SanitizedTransaction {
    #[verifier::type_invariant]
    closed spec fn inv(self) -> bool {
        &&& self.message@.sanitized()
        &&& self.message@.header.num_required_signatures <= self.signatures@.len()
        &&& self.signatures@.len() <= self.message@.account_keys.len()
    }

    /// The message of the transaction.
    pub closed spec fn spec_message(self) -> MessageView {
        self.message@
    }

    /// The message of the transaction as the value that it is held as.
    pub closed spec fn spec_message_value(self) -> SanitizedMessage {
        self.message
    }

    /// The signatures of the transaction.
    pub closed spec fn spec_signatures(self) -> Seq<Signature> {
        self.signatures@
    }

    /// The signature that names the transaction: the first.
    pub open spec fn spec_signature(self) -> Signature {
        self.spec_signatures()[0]
    }

    /// What holds of every transaction that exists as a value: its message
    /// is sanitized, every required signature is there, and there are no
    /// more signatures than keys.
    pub open spec fn well_formed(self) -> bool {
        &&& self.spec_message().sanitized()
        &&& self.spec_message().header.num_required_signatures <= self.spec_signatures().len()
        &&& self.spec_signatures().len() <= self.spec_message().account_keys.len()
    }

    /// Puts signatures to a message; `None` where a required signature is
    /// missing or there are more signatures than keys.
    pub fn try_new(message: SanitizedMessage, signatures: Vec<Signature>) -> (r: Option<Self>)
        ensures
            r is Some == (message@.header.num_required_signatures <= signatures@.len()
                <= message@.account_keys.len()),
            r is Some ==> r->0.spec_message() == message@ && r->0.spec_signatures()
                == signatures@ && r->0.well_formed(),
    {
        proof {
            use_type_invariant(&message);
        }
        if message.header.num_required_signatures as usize > signatures.len() {
            return None;
        }
        if signatures.len() > message.account_keys.len() {
            return None;
        }
        Some(SanitizedTransaction { message, signatures })
    }

    /// The message. A transaction that exists as a value is well-formed.
    pub fn message(&self) -> (r: &SanitizedMessage)
        ensures
            *r == self.spec_message_value(),
            r@ == self.spec_message(),
            self.well_formed(),
    {
        proof {
            use_type_invariant(self);
        }
        &self.message
    }

    /// The signatures, in order.
    pub fn signatures(&self) -> (r: &Vec<Signature>)
        ensures
            r@ == self.spec_signatures(),
    {
        &self.signatures
    }

    /// The signature that names the transaction.
    pub fn signature(&self) -> (r: &Signature)
        ensures
            *r == self.spec_signature(),
    {
        proof {
            use_type_invariant(self);
        }
        &self.signatures[0]
    }
}

/// A request to look addresses up in an on-chain table.
#[derive(Clone, Debug, PartialEq, Eq)]
pub struct MessageAddressTableLookup {
    pub account_key: Address,
    pub writable_indexes: Vec<u8>,
    pub readonly_indexes: Vec<u8>,
}

/// The addresses that a lookup gave.
#[derive(Clone, Debug, PartialEq, Eq)]
pub struct LoadedAddresses {
    pub writable: Vec<Address>,
    pub readonly: Vec<Address>,
}

/// Why addresses could not be looked up.
#[derive(Clone, Copy, Debug, PartialEq, Eq, Structural)]
pub enum AddressLoaderError {
    /// Address lookup is not supported.
    Disabled,
}

/// The address loader of this ledger: on-chain address tables are not
/// supported, and every lookup fails.
#[derive(Clone, Copy, Debug, Default)]
pub struct PgAddressLoader {}

impl PgAddressLoader {
    /// Refuses the lookup.
    pub fn load_addresses(self, lookups: &[MessageAddressTableLookup]) -> (r: Result<
        LoadedAddresses,
        AddressLoaderError,
    >)
        ensures
            r == Err::<LoadedAddresses, AddressLoaderError>(AddressLoaderError::Disabled),
    {
        Err(AddressLoaderError::Disabled)
    }
}

} // verus!
