//! The account-role mapper: which account of an instruction plays which part.
//!
//! Every instruction names the parts that its first accounts play, in order.
//! The accounts that follow them are the signers of a multisignature
//! authority.

use crate::error::Error;
use crate::instruction::{InstructionDescriptor, InstructionKind};
use vstd::prelude::*;

verus! {

/// The parts that an account can play in an instruction.
#[derive(Clone, Copy, Debug, PartialEq, Eq, Structural)]
pub enum Role {
    Mint,
    RentSysvar,
    Account,
    Owner,
    Source,
    Destination,
    Delegate,
    Authority,
    Payer,
    FundRelocationSysProgram,
    FundingAccount,
    MintFundingSysProgram,
}

/// The accounts of one instruction, by the part they play. A part that the
/// instruction does not have, or that its account list is too short to fill,
/// is `None`.
#[derive(Clone, Debug, PartialEq, Eq)]
pub struct Accounts {
    pub mint: Option<String>,
    pub rent_sysvar: Option<String>,
    pub account: Option<String>,
    pub owner: Option<String>,
    pub signer_accounts: Vec<String>,
    pub source: Option<String>,
    pub destination: Option<String>,
    pub delegate: Option<String>,
    pub authority: Option<String>,
    pub payer: Option<String>,
    pub fund_relocation_sys_program: Option<String>,
    pub funding_account: Option<String>,
    pub mint_funding_sys_program: Option<String>,
}

/// The model of [`Accounts`]: addresses are texts.
pub struct AccountsView {
    pub mint: Option<Seq<char>>,
    pub rent_sysvar: Option<Seq<char>>,
    pub account: Option<Seq<char>>,
    pub owner: Option<Seq<char>>,
    pub signer_accounts: Seq<Seq<char>>,
    pub source: Option<Seq<char>>,
    pub destination: Option<Seq<char>>,
    pub delegate: Option<Seq<char>>,
    pub authority: Option<Seq<char>>,
    pub payer: Option<Seq<char>>,
    pub fund_relocation_sys_program: Option<Seq<char>>,
    pub funding_account: Option<Seq<char>>,
    pub mint_funding_sys_program: Option<Seq<char>>,
}

impl View for Accounts {
    type V = AccountsView;

    open spec fn view(&self) -> AccountsView {
        AccountsView {
            mint: self.mint.deep_view(),
            rent_sysvar: self.rent_sysvar.deep_view(),
            account: self.account.deep_view(),
            owner: self.owner.deep_view(),
            signer_accounts: self.signer_accounts.deep_view(),
            source: self.source.deep_view(),
            destination: self.destination.deep_view(),
            delegate: self.delegate.deep_view(),
            authority: self.authority.deep_view(),
            payer: self.payer.deep_view(),
            fund_relocation_sys_program: self.fund_relocation_sys_program.deep_view(),
            funding_account: self.funding_account.deep_view(),
            mint_funding_sys_program: self.mint_funding_sys_program.deep_view(),
        }
    }
}

impl DeepView for Accounts {
    type V = AccountsView;

    open spec fn deep_view(&self) -> AccountsView {
        self@
    }
}

impl AccountsView {
    /// No part is filled and there is no signer.
    pub open spec fn empty() -> AccountsView {
        AccountsView {
            mint: None,
            rent_sysvar: None,
            account: None,
            owner: None,
            signer_accounts: Seq::empty(),
            source: None,
            destination: None,
            delegate: None,
            authority: None,
            payer: None,
            fund_relocation_sys_program: None,
            funding_account: None,
            mint_funding_sys_program: None,
        }
    }

    /// The account that plays `role`, if any.
    pub open spec fn get(self, role: Role) -> Option<Seq<char>> {
        match role {
            Role::Mint => self.mint,
            Role::RentSysvar => self.rent_sysvar,
            Role::Account => self.account,
            Role::Owner => self.owner,
            Role::Source => self.source,
            Role::Destination => self.destination,
            Role::Delegate => self.delegate,
            Role::Authority => self.authority,
            Role::Payer => self.payer,
            Role::FundRelocationSysProgram => self.fund_relocation_sys_program,
            Role::FundingAccount => self.funding_account,
            Role::MintFundingSysProgram => self.mint_funding_sys_program,
        }
    }

    /// These accounts with `role` given to `name`, unless the part is taken.
    pub open spec fn with(self, role: Role, name: Seq<char>) -> AccountsView {
        if self.get(role) is Some {
            self
        } else {
            match role {
                Role::Mint => AccountsView {
                    mint: Some(name),
                    ..self
                },
                Role::RentSysvar => AccountsView {
                    rent_sysvar: Some(name),
                    ..self
                },
                Role::Account => AccountsView {
                    account: Some(name),
                    ..self
                },
                Role::Owner => AccountsView {
                    owner: Some(name),
                    ..self
                },
                Role::Source => AccountsView {
                    source: Some(name),
                    ..self
                },
                Role::Destination => AccountsView {
                    destination: Some(name),
                    ..self
                },
                Role::Delegate => AccountsView {
                    delegate: Some(name),
                    ..self
                },
                Role::Authority => AccountsView {
                    authority: Some(name),
                    ..self
                },
                Role::Payer => AccountsView {
                    payer: Some(name),
                    ..self
                },
                Role::FundRelocationSysProgram => AccountsView {
                    fund_relocation_sys_program: Some(name),
                    ..self
                },
                Role::FundingAccount => AccountsView {
                    funding_account: Some(name),
                    ..self
                },
                Role::MintFundingSysProgram => AccountsView {
                    mint_funding_sys_program: Some(name),
                    ..self
                },
            }
        }
    }
}

/// The parts that the first accounts of an instruction play, in order.
pub open spec fn fixed_roles(kind: InstructionKind) -> Seq<Role> {
    match kind {
        InstructionKind::InitializeMint => seq![Role::Mint, Role::RentSysvar],
        InstructionKind::InitializeAccount => seq![
            Role::Account,
            Role::Mint,
            Role::Owner,
            Role::RentSysvar,
        ],
        InstructionKind::InitializeMultisig => seq![Role::Account, Role::RentSysvar],
        InstructionKind::Transfer => seq![Role::Source, Role::Destination, Role::Authority],
        InstructionKind::Approve => seq![Role::Source, Role::Delegate, Role::Owner],
        InstructionKind::CloseAccount => seq![Role::Account, Role::Destination, Role::Owner],
        InstructionKind::SetAuthority => seq![Role::Account, Role::Authority],
        InstructionKind::MintTo => seq![Role::Mint, Role::Account, Role::Authority],
        InstructionKind::Burn => seq![Role::Account, Role::Mint, Role::Authority],
        InstructionKind::Revoke => seq![Role::Account, Role::Owner],
        InstructionKind::FreezeAccount => seq![Role::Account, Role::Mint, Role::Authority],
        InstructionKind::ThawAccount => seq![Role::Account, Role::Mint, Role::Authority],
        InstructionKind::TransferChecked => seq![
            Role::Source,
            Role::Mint,
            Role::Destination,
            Role::Authority,
        ],
        InstructionKind::ApproveChecked => seq![
            Role::Source,
            Role::Mint,
            Role::Delegate,
            Role::Owner,
        ],
        InstructionKind::MintToChecked => seq![Role::Mint, Role::Account, Role::Authority],
        InstructionKind::BurnChecked => seq![Role::Account, Role::Mint, Role::Authority],
        InstructionKind::InitializeAccount2 => seq![Role::Account, Role::Mint, Role::RentSysvar],
        InstructionKind::SyncNative => seq![Role::Account],
        InstructionKind::InitializeAccount3 => seq![Role::Account, Role::Mint],
        InstructionKind::InitializeMultisig2 => seq![Role::Account],
        InstructionKind::InitializeMint2 => seq![Role::Mint],
        InstructionKind::GetAccountDataSize => seq![Role::Mint],
        InstructionKind::InitializeImmutableOwner => seq![Role::Account],
        InstructionKind::AmountToUiAmount => seq![Role::Mint],
        InstructionKind::UiAmountToAmount => seq![Role::Mint],
        InstructionKind::InitializeMintCloseAuthority => seq![Role::Mint],
        InstructionKind::Reallocate => seq![
            Role::Account,
            Role::Payer,
            Role::FundRelocationSysProgram,
            Role::Owner,
        ],
        InstructionKind::CreateNativeMint => seq![
            Role::FundingAccount,
            Role::Mint,
            Role::MintFundingSysProgram,
        ],
        InstructionKind::InitializeNonTransferableMint => seq![Role::Mint],
        _ => Seq::empty(),
    }
}

/// The position of `role` among `roles`: that of its first occurrence.
pub open spec fn role_position(roles: Seq<Role>, role: Role) -> Option<int>
    decreases roles.len(),
{
    if roles.len() == 0 {
        None
    } else {
        match role_position(roles.drop_last(), role) {
            Some(p) => Some(p),
            None => if roles.last() == role {
                Some(roles.len() - 1)
            } else {
                None
            },
        }
    }
}

/// The account that plays `role` when `names` are given to `roles` in order.
pub open spec fn role_name(roles: Seq<Role>, names: Seq<Seq<char>>, role: Role) -> Option<
    Seq<char>,
> {
    match role_position(roles, role) {
        Some(p) => if p < names.len() {
            Some(names[p])
        } else {
            None
        },
        None => None,
    }
}

/// The accounts that are left once `count` parts have been filled.
pub open spec fn signer_names(count: nat, names: Seq<Seq<char>>) -> Seq<Seq<char>> {
    if count < names.len() {
        names.skip(count as int)
    } else {
        Seq::empty()
    }
}

/// The parts of an instruction of this kind whose accounts are `names`.
pub open spec fn name_roles_spec(kind: InstructionKind, names: Seq<Seq<char>>) -> AccountsView {
    let roles = fixed_roles(kind);
    AccountsView {
        mint: role_name(roles, names, Role::Mint),
        rent_sysvar: role_name(roles, names, Role::RentSysvar),
        account: role_name(roles, names, Role::Account),
        owner: role_name(roles, names, Role::Owner),
        signer_accounts: signer_names(roles.len(), names),
        source: role_name(roles, names, Role::Source),
        destination: role_name(roles, names, Role::Destination),
        delegate: role_name(roles, names, Role::Delegate),
        authority: role_name(roles, names, Role::Authority),
        payer: role_name(roles, names, Role::Payer),
        fund_relocation_sys_program: role_name(roles, names, Role::FundRelocationSysProgram),
        funding_account: role_name(roles, names, Role::FundingAccount),
        mint_funding_sys_program: role_name(roles, names, Role::MintFundingSysProgram),
    }
}

/// The addresses that `indices` select from `accounts`, in the order of the
/// indices, or `None` where an index is past the end of `accounts`.
pub open spec fn account_args(indices: Seq<u8>, accounts: Seq<Seq<char>>) -> Option<
    Seq<Seq<char>>,
> {
    if forall|i: int| 0 <= i < indices.len() ==> (#[trigger] indices[i]) < accounts.len() {
        Some(Seq::new(indices.len(), |i: int| accounts[indices[i] as int]))
    } else {
        None
    }
}

/// A position in a role list is found where the role is, and nowhere before.
pub proof fn lemma_role_position(roles: Seq<Role>, role: Role)
    ensures
        match role_position(roles, role) {
            Some(p) => 0 <= p < roles.len() && roles[p] == role && forall|q: int|
                0 <= q < p ==> roles[q] != role,
            None => forall|q: int| 0 <= q < roles.len() ==> roles[q] != role,
        },
    decreases roles.len(),
{
    if roles.len() > 0 {
        let front = roles.drop_last();
        lemma_role_position(front, role);
        assert forall|q: int| 0 <= q < front.len() implies front[q] == roles[q] by {}
    }
}

/// Filling the next part keeps the parts filled so far and adds the part of
/// position `j`, where an account is left for it and the part is not taken.
proof fn lemma_assign_next(
    before: AccountsView,
    after: AccountsView,
    roles: Seq<Role>,
    names: Seq<Seq<char>>,
    j: int,
)
    requires
        0 <= j < roles.len(),
        forall|role: Role|
            (#[trigger] before.get(role)) == role_name(roles.take(j), names, role),
        after == if j < names.len() {
            before.with(roles[j], names[j])
        } else {
            before
        },
    ensures
        forall|role: Role|
            (#[trigger] after.get(role)) == role_name(roles.take(j + 1), names, role),
{
    assert(roles.take(j + 1).drop_last() =~= roles.take(j));
    assert forall|role: Role|
        (#[trigger] after.get(role)) == role_name(roles.take(j + 1), names, role) by {
        lemma_role_position(roles.take(j), role);
        assert(before.get(role) == role_name(roles.take(j), names, role));
    }
}

impl Accounts {
    /// No part is filled and there is no signer.
    pub fn empty() -> (accounts: Accounts)
        ensures
            accounts@ == AccountsView::empty(),
    {
        let accounts = Accounts {
            mint: None,
            rent_sysvar: None,
            account: None,
            owner: None,
            signer_accounts: Vec::new(),
            source: None,
            destination: None,
            delegate: None,
            authority: None,
            payer: None,
            fund_relocation_sys_program: None,
            funding_account: None,
            mint_funding_sys_program: None,
        };
        assert(accounts.signer_accounts.deep_view() =~= Seq::<Seq<char>>::empty());
        accounts
    }

    /// Gives `role` to `name`, unless the part is taken.
    pub fn assign(&mut self, role: Role, name: String)
        ensures
            final(self)@ == old(self)@.with(role, name@),
    {
        match role {
            Role::Mint => {
                if self.mint.is_none() {
                    self.mint = Some(name);
                }
            },
            Role::RentSysvar => {
                if self.rent_sysvar.is_none() {
                    self.rent_sysvar = Some(name);
                }
            },
            Role::Account => {
                if self.account.is_none() {
                    self.account = Some(name);
                }
            },
            Role::Owner => {
                if self.owner.is_none() {
                    self.owner = Some(name);
                }
            },
            Role::Source => {
                if self.source.is_none() {
                    self.source = Some(name);
                }
            },
            Role::Destination => {
                if self.destination.is_none() {
                    self.destination = Some(name);
                }
            },
            Role::Delegate => {
                if self.delegate.is_none() {
                    self.delegate = Some(name);
                }
            },
            Role::Authority => {
                if self.authority.is_none() {
                    self.authority = Some(name);
                }
            },
            Role::Payer => {
                if self.payer.is_none() {
                    self.payer = Some(name);
                }
            },
            Role::FundRelocationSysProgram => {
                if self.fund_relocation_sys_program.is_none() {
                    self.fund_relocation_sys_program = Some(name);
                }
            },
            Role::FundingAccount => {
                if self.funding_account.is_none() {
                    self.funding_account = Some(name);
                }
            },
            Role::MintFundingSysProgram => {
                if self.mint_funding_sys_program.is_none() {
                    self.mint_funding_sys_program = Some(name);
                }
            },
        }
    }
}

/// The parts that the first accounts of an instruction play, in order.
pub fn fixed_roles_of(kind: InstructionKind) -> (roles: Vec<Role>)
    ensures
        roles@ == fixed_roles(kind),
{
    let roles = match kind {
        InstructionKind::InitializeMint => vec![Role::Mint, Role::RentSysvar],
        InstructionKind::InitializeAccount => vec![
            Role::Account,
            Role::Mint,
            Role::Owner,
            Role::RentSysvar,
        ],
        InstructionKind::InitializeMultisig => vec![Role::Account, Role::RentSysvar],
        InstructionKind::Transfer => vec![Role::Source, Role::Destination, Role::Authority],
        InstructionKind::Approve => vec![Role::Source, Role::Delegate, Role::Owner],
        InstructionKind::CloseAccount => vec![Role::Account, Role::Destination, Role::Owner],
        InstructionKind::SetAuthority => vec![Role::Account, Role::Authority],
        InstructionKind::MintTo => vec![Role::Mint, Role::Account, Role::Authority],
        InstructionKind::Burn => vec![Role::Account, Role::Mint, Role::Authority],
        InstructionKind::Revoke => vec![Role::Account, Role::Owner],
        InstructionKind::FreezeAccount => vec![Role::Account, Role::Mint, Role::Authority],
        InstructionKind::ThawAccount => vec![Role::Account, Role::Mint, Role::Authority],
        InstructionKind::TransferChecked => vec![
            Role::Source,
            Role::Mint,
            Role::Destination,
            Role::Authority,
        ],
        InstructionKind::ApproveChecked => vec![
            Role::Source,
            Role::Mint,
            Role::Delegate,
            Role::Owner,
        ],
        InstructionKind::MintToChecked => vec![Role::Mint, Role::Account, Role::Authority],
        InstructionKind::BurnChecked => vec![Role::Account, Role::Mint, Role::Authority],
        InstructionKind::InitializeAccount2 => vec![Role::Account, Role::Mint, Role::RentSysvar],
        InstructionKind::SyncNative => vec![Role::Account],
        InstructionKind::InitializeAccount3 => vec![Role::Account, Role::Mint],
        InstructionKind::InitializeMultisig2 => vec![Role::Account],
        InstructionKind::InitializeMint2 => vec![Role::Mint],
        InstructionKind::GetAccountDataSize => vec![Role::Mint],
        InstructionKind::InitializeImmutableOwner => vec![Role::Account],
        InstructionKind::AmountToUiAmount => vec![Role::Mint],
        InstructionKind::UiAmountToAmount => vec![Role::Mint],
        InstructionKind::InitializeMintCloseAuthority => vec![Role::Mint],
        InstructionKind::Reallocate => vec![
            Role::Account,
            Role::Payer,
            Role::FundRelocationSysProgram,
            Role::Owner,
        ],
        InstructionKind::CreateNativeMint => vec![
            Role::FundingAccount,
            Role::Mint,
            Role::MintFundingSysProgram,
        ],
        InstructionKind::InitializeNonTransferableMint => vec![Role::Mint],
        _ => Vec::new(),
    };
    roles
}

/// Resolves the account indices of an instruction against the account list
/// of its transaction.
///
/// Succeeds exactly when every index is inside `accounts`; the result then
/// holds, for each index in order, the address at that position. Fails with
/// `UnresolvedAccountIndex` otherwise.
pub fn prepare_account_args(account_indices: &Vec<u8>, accounts: &Vec<String>) -> (result: Result<
    Vec<String>,
    Error,
>)
    ensures
        match account_args(account_indices@, accounts.deep_view()) {
            Some(names) => result matches Ok(found) && found.deep_view() == names,
            None => result == Err::<Vec<String>, Error>(Error::UnresolvedAccountIndex),
        },
{
    let mut instruction_accounts: Vec<String> = Vec::new();
    let mut i: usize = 0;
    while i < account_indices.len()
        invariant
            i <= account_indices.len(),
            instruction_accounts.len() == i,
            forall|j: int| 0 <= j < i ==> (#[trigger] account_indices@[j]) < accounts.len(),
            forall|j: int|
                0 <= j < i ==> (#[trigger] instruction_accounts@[j])@
                    == accounts@[account_indices@[j] as int]@,
        decreases account_indices.len() - i,
    {
        let el = account_indices[i] as usize;
        if el >= accounts.len() {
            return Err(Error::UnresolvedAccountIndex);
        }
        instruction_accounts.push(accounts[el].clone());
        i += 1;
    }
    Ok(instruction_accounts)
}

/// Gives the accounts of an instruction, already resolved, their parts.
///
/// The first accounts fill the parts that the instruction names, in order;
/// the accounts after them are the signers, in order. A part for which no
/// account is left stays empty.
pub fn name_roles(kind: InstructionKind, names: &Vec<String>) -> (accounts: Accounts)
    ensures
        accounts@ == name_roles_spec(kind, names.deep_view()),
{
    let roles = fixed_roles_of(kind);
    let mut accounts = Accounts::empty();
    let mut j: usize = 0;
    while j < roles.len()
        invariant
            j <= roles.len(),
            accounts@.signer_accounts == Seq::<Seq<char>>::empty(),
            forall|role: Role|
                (#[trigger] accounts@.get(role)) == role_name(
                    roles@.take(j as int),
                    names.deep_view(),
                    role,
                ),
        decreases roles.len() - j,
    {
        let ghost before = accounts@;
        if j < names.len() {
            accounts.assign(roles[j], names[j].clone());
        }
        proof {
            lemma_assign_next(before, accounts@, roles@, names.deep_view(), j as int);
        }
        j += 1;
    }
    assert(roles@.take(roles.len() as int) =~= roles@);
    let mut k: usize = roles.len();
    if k < names.len() {
        while k < names.len()
            invariant
                roles.len() <= k <= names.len(),
                accounts@.signer_accounts == names.deep_view().subrange(
                    roles.len() as int,
                    k as int,
                ),
                forall|role: Role|
                    (#[trigger] accounts@.get(role)) == role_name(roles@, names.deep_view(), role),
            decreases names.len() - k,
        {
            let ghost before = accounts@;
            let name = names[k].clone();
            accounts.signer_accounts.push(name);
            proof {
                assert(accounts@.signer_accounts =~= before.signer_accounts.push(
                    names.deep_view()[k as int],
                ));
                assert forall|role: Role|
                    (#[trigger] accounts@.get(role)) == role_name(
                        roles@,
                        names.deep_view(),
                        role,
                    ) by {
                    assert(before.get(role) == role_name(roles@, names.deep_view(), role));
                }
            }
            k += 1;
        }
    }
    proof {
        let want = name_roles_spec(kind, names.deep_view());
        assert(accounts@.get(Role::Mint) == want.mint);
        assert(accounts@.get(Role::RentSysvar) == want.rent_sysvar);
        assert(accounts@.get(Role::Account) == want.account);
        assert(accounts@.get(Role::Owner) == want.owner);
        assert(accounts@.get(Role::Source) == want.source);
        assert(accounts@.get(Role::Destination) == want.destination);
        assert(accounts@.get(Role::Delegate) == want.delegate);
        assert(accounts@.get(Role::Authority) == want.authority);
        assert(accounts@.get(Role::Payer) == want.payer);
        assert(accounts@.get(Role::FundRelocationSysProgram) == want.fund_relocation_sys_program);
        assert(accounts@.get(Role::FundingAccount) == want.funding_account);
        assert(accounts@.get(Role::MintFundingSysProgram) == want.mint_funding_sys_program);
    }
    accounts
}

/// The parts of the accounts of an instruction of this kind, whose account
/// indices are resolved against `accounts`; or `None` where an index is past
/// the end of `accounts`.
pub open spec fn assign_roles_spec(
    kind: InstructionKind,
    indices: Seq<u8>,
    accounts: Seq<Seq<char>>,
) -> Option<AccountsView> {
    match account_args(indices, accounts) {
        Some(names) => Some(name_roles_spec(kind, names)),
        None => None,
    }
}

/// Resolves the account indices of a decoded instruction and gives the
/// accounts their parts.
///
/// Fails, with `UnresolvedAccountIndex`, exactly when an index is past the
/// end of the resolved account list.
pub fn assign_roles(
    descriptor: &InstructionDescriptor,
    instruction_account_indices: &Vec<u8>,
    resolved_account_list: &Vec<String>,
) -> (result: Result<Accounts, Error>)
    ensures
        match assign_roles_spec(
            descriptor.kind,
            instruction_account_indices@,
            resolved_account_list.deep_view(),
        ) {
            Some(accounts) => result matches Ok(found) && found@ == accounts,
            None => result == Err::<Accounts, Error>(Error::UnresolvedAccountIndex),
        },
{
    match prepare_account_args(instruction_account_indices, resolved_account_list) {
        Ok(names) => Ok(name_roles(descriptor.kind, &names)),
        Err(_) => Err(Error::UnresolvedAccountIndex),
    }
}

} // verus!
