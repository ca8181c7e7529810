use vstd::prelude::*;
use vstd::string::StringSliceAdditionalSpecFns;
use vstd::utf8::encode_utf8;
use crate::amount::{clamp, Amount};
use crate::ledger::Ledger;
use crate::metadata::{metadata_valid, TokenArgs};
use crate::naming::{
    ascii_lowercase, bytes_of, child_account_id, account_id_is_legal, child_of, is_name_byte, is_valid_name, legal_account_id, lower_bytes,
    valid_name,
};
use crate::registry::{has_name, Registry};

verus! {

/// Bytes budgeted for each child beyond its binary and its arguments.
pub const EXTRA_BYTES: u64 = 10000;

/// Why a call fails. A failed call changes nothing.
#[derive(Clone, Copy, Debug, PartialEq, Eq, Structural)]
pub enum FactoryError {
    InsufficientRegistrationFunds,
    InvalidMetadata,
    InvalidName,
    InvalidChildIdentifier,
    AccountNotRegistered,
    InsufficientFunds,
    NameAlreadyTaken,
}

/// The state of the factory as the contracts see it.
pub struct FactoryView {
    /// Spendable credit of each registered account.
    pub deposits: Map<Seq<u8>, u128>,
    /// Created tokens, by name, in the order of their creation.
    pub tokens: Seq<(Seq<u8>, TokenArgs)>,
    /// What a first registration costs.
    pub registration_cost: u128,
    /// The price of one byte of storage.
    pub byte_cost: u128,
    /// The size in bytes of the binary deployed into each child.
    pub code_size: u64,
}

/// What one creation costs for arguments serialized into `payload_len` bytes.
pub open spec fn creation_cost_of(byte_cost: u128, code_size: u64, payload_len: nat) -> u128 {
    clamp(byte_cost * (code_size + EXTRA_BYTES + 2 * payload_len))
}

/// The ledger after `account` pays `amount` in, or `None` where a first
/// registration is paid less than `registration_cost`.
pub open spec fn deposit_outcome(
    deposits: Map<Seq<u8>, u128>,
    registration_cost: u128,
    account: Seq<u8>,
    amount: u128,
) -> Option<Map<Seq<u8>, u128>> {
    if deposits.contains_key(account) {
        Some(deposits.insert(account, clamp(deposits[account] + amount)))
    } else if amount < registration_cost {
        None
    } else {
        Some(deposits.insert(account, (amount - registration_cost) as u128))
    }
}

/// What an account must still pay before a creation with `payload_len` bytes
/// of arguments can go through.
pub open spec fn quote_of(v: FactoryView, payload_len: nat, account: Seq<u8>) -> u128 {
    let cost = creation_cost_of(v.byte_cost, v.code_size, payload_len);
    if v.deposits.contains_key(account) {
        clamp(cost - v.deposits[account])
    } else {
        clamp(v.registration_cost + cost)
    }
}

/// The name a token is registered under.
pub open spec fn token_name(args: TokenArgs) -> Seq<u8> {
    lower_bytes(encode_utf8(args.metadata.symbol@))
}

/// The ledger after the payment attached to a creation, if any.
pub open spec fn ledger_after_payment(v: FactoryView, caller: Seq<u8>, attached: u128) -> Option<
    Map<Seq<u8>, u128>,
> {
    if attached > 0 {
        deposit_outcome(v.deposits, v.registration_cost, caller, attached)
    } else {
        Some(v.deposits)
    }
}

/// The first step at which a creation fails, or `None` where it succeeds.
pub open spec fn creation_error(
    v: FactoryView,
    caller: Seq<u8>,
    attached: u128,
    args: TokenArgs,
    payload_len: nat,
    current_account: Seq<u8>,
) -> Option<FactoryError> {
    let paid = ledger_after_payment(v, caller, attached);
    let required = creation_cost_of(v.byte_cost, v.code_size, payload_len);
    if paid is None {
        Some(FactoryError::InsufficientRegistrationFunds)
    } else if !metadata_valid(args.metadata) {
        Some(FactoryError::InvalidMetadata)
    } else if !valid_name(token_name(args)) {
        Some(FactoryError::InvalidName)
    } else if !legal_account_id(child_of(token_name(args), current_account)) {
        Some(FactoryError::InvalidChildIdentifier)
    } else if !paid.unwrap().contains_key(caller) {
        Some(FactoryError::AccountNotRegistered)
    } else if paid.unwrap()[caller] < required {
        Some(FactoryError::InsufficientFunds)
    } else if has_name(v.tokens, token_name(args)) {
        Some(FactoryError::NameAlreadyTaken)
    } else {
        None
    }
}

/// What a successful creation hands to the host: the child account to create,
/// the balance reserved for it, and the serialized arguments of its initializer.
pub struct TokenCreation {
    pub name: Vec<u8>,
    pub account_id: Vec<u8>,
    pub required_balance: u128,
    pub init_args: Vec<u8>,
}

/// The factory: a ledger of prepaid storage credit and a registry of created tokens.
pub struct Contract {
    tokens: Registry,
    storage_deposits: Ledger,
    storage_balance_cost: Amount,
    storage_byte_cost: Amount,
    code_size: u64,
}

impl View for Contract {
    type V = FactoryView;

    closed spec fn view(&self) -> FactoryView {
        FactoryView {
            deposits: self.storage_deposits@,
            tokens: self.tokens@,
            registration_cost: self.storage_balance_cost.value(),
            byte_cost: self.storage_byte_cost.value(),
            code_size: self.code_size,
        }
    }
}

impl Contract {
    pub closed spec fn wf(&self) -> bool {
        self.tokens.wf() && self.storage_deposits.wf()
    }

    /// A fresh factory. `probe_bytes` is the storage growth measured when one
    /// ledger entry of the longest account identifier was written; a first
    /// registration costs that many bytes.
    pub fn new(storage_byte_cost: u128, probe_bytes: u64, code_size: u64) -> (r: Contract)
        ensures
            r.wf(),
            r@.deposits == Map::<Seq<u8>, u128>::empty(),
            r@.tokens == Seq::<(Seq<u8>, TokenArgs)>::empty(),
            r@.registration_cost == clamp(storage_byte_cost * probe_bytes),
            r@.byte_cost == storage_byte_cost,
            r@.code_size == code_size,
    {
        let price = Amount::from_yocto(storage_byte_cost);
        Contract {
            tokens: Registry::new(),
            storage_deposits: Ledger::new(),
            storage_balance_cost: price.saturating_mul(probe_bytes as u128),
            storage_byte_cost: price,
            code_size,
        }
    }

    /// What a first registration costs.
    pub fn registration_cost(&self) -> (r: u128)
        ensures
            r == self@.registration_cost,
    {
        self.storage_balance_cost.as_yocto()
    }

    /// The credit of `account_id`, or `None` where it is not registered.
    pub fn credit_of(&self, account_id: &str) -> (r: Option<u128>)
        requires
            self.wf(),
        ensures
            r == (if self@.deposits.contains_key(account_id.spec_bytes()) {
                Some(self@.deposits[account_id.spec_bytes()])
            } else {
                None::<u128>
            }),
    {
        let key = bytes_of(account_id);
        self.storage_deposits.get(&key)
    }

    /// What creating a token costs when its arguments serialize into
    /// `payload_len` bytes.
    pub fn get_min_attached_balance(&self, payload_len: usize) -> (r: u128)
        ensures
            r == creation_cost_of(self@.byte_cost, self@.code_size, payload_len as nat),
    {
        let bytes: u128 = self.code_size as u128 + EXTRA_BYTES as u128 + 2 * (payload_len as u128);
        self.storage_byte_cost.saturating_mul(bytes).as_yocto()
    }

    /// What `account_id` must attach to create a token whose serialized
    /// arguments are `payload`.
    pub fn get_required_deposit(&self, payload: &Vec<u8>, account_id: &str) -> (r: u128)
        requires
            self.wf(),
        ensures
            r == quote_of(self@, payload@.len(), account_id.spec_bytes()),
    {
        let cost = Amount::from_yocto(self.get_min_attached_balance(payload.len()));
        match self.credit_of(account_id) {
            Some(previous) => cost.saturating_sub(Amount::from_yocto(previous)).as_yocto(),
            None => self.storage_balance_cost.saturating_add(cost).as_yocto(),
        }
    }

    /// The number of created tokens.
    pub fn get_number_of_tokens(&self) -> (r: u32)
        requires
            self.wf(),
        ensures
            r == self@.tokens.len(),
    {
        self.tokens.len()
    }

    /// `account_id` pays in `deposit`. A first payment gives up the
    /// registration cost and credits the rest; a later one is credited whole.
    pub fn storage_deposit(&mut self, account_id: &str, deposit: u128) -> (r: Result<(), FactoryError>)
        requires
            old(self).wf(),
        ensures
            final(self).wf(),
            match deposit_outcome(
                old(self)@.deposits,
                old(self)@.registration_cost,
                account_id.spec_bytes(),
                deposit,
            ) {
                Some(d) => r is Ok && final(self)@ == (FactoryView { deposits: d, ..old(self)@ }),
                None => r == Err::<(), FactoryError>(FactoryError::InsufficientRegistrationFunds)
                    && final(self)@ == old(self)@,
            },
    {
        let key = bytes_of(account_id);
        let amount = Amount::from_yocto(deposit);
        match self.storage_deposits.get(&key) {
            Some(previous) => {
                let credit = Amount::from_yocto(previous).saturating_add(amount);
                self.storage_deposits.insert(key, credit.as_yocto());
                Ok(())
            },
            None => {
                if deposit < self.storage_balance_cost.as_yocto() {
                    return Err(FactoryError::InsufficientRegistrationFunds);
                }
                let credit = amount.saturating_sub(self.storage_balance_cost);
                self.storage_deposits.insert(key, credit.as_yocto());
                Ok(())
            },
        }
    }

    /// Creates a token on behalf of `caller`, who attached `attached` to the
    /// call, under the factory's own account `current_account_id`.
    /// `init_args` are `args` serialized for the child's initializer. Any
    /// payment attached is paid in first. On
    /// success the caller is charged the creation cost and the token's name is
    /// taken for good; on failure nothing changes.
    pub fn create_token(
        &mut self,
        caller: &str,
        attached: u128,
        current_account_id: &str,
        args: TokenArgs,
        init_args: Vec<u8>,
    ) -> (r: Result<TokenCreation, FactoryError>)
        requires
            old(self).wf(),
            old(self)@.tokens.len() < u32::MAX,
        ensures
            final(self).wf(),
            match creation_error(
                old(self)@,
                caller.spec_bytes(),
                attached,
                args,
                init_args@.len(),
                current_account_id.spec_bytes(),
            ) {
                Some(e) => r == Err::<TokenCreation, FactoryError>(e) && final(self)@ == old(self)@,
                None => {
                    let who = caller.spec_bytes();
                    let paid = ledger_after_payment(old(self)@, who, attached).unwrap();
                    let required = creation_cost_of(
                        old(self)@.byte_cost,
                        old(self)@.code_size,
                        init_args@.len(),
                    );
                    let name = token_name(args);
                    &&& r is Ok
                    &&& final(self)@ == (FactoryView {
                        deposits: paid.insert(who, (paid[who] - required) as u128),
                        tokens: old(self)@.tokens.push((name, args)),
                        ..old(self)@
                    })
                    &&& r->Ok_0.name@ == name
                    &&& r->Ok_0.account_id@ == child_of(name, current_account_id.spec_bytes())
                    &&& r->Ok_0.required_balance == required
                    &&& r->Ok_0.init_args@ == init_args@
                },
            },
    {
        let key = bytes_of(caller);
        let prior = self.storage_deposits.get(&key);
        let mut credit = prior;
        if attached > 0 {
            match prior {
                Some(p) => {
                    credit = Some(Amount::from_yocto(p).saturating_add(Amount::from_yocto(attached)).as_yocto());
                },
                None => {
                    if attached < self.storage_balance_cost.as_yocto() {
                        return Err(FactoryError::InsufficientRegistrationFunds);
                    }
                    credit = Some(attached - self.storage_balance_cost.as_yocto());
                },
            }
        }
        if !args.metadata.is_valid() {
            return Err(FactoryError::InvalidMetadata);
        }
        let name = ascii_lowercase(args.metadata.symbol.as_str());
        if !is_valid_name(name.as_slice()) {
            return Err(FactoryError::InvalidName);
        }
        let account_id = child_account_id(&name, current_account_id);
        if !account_id_is_legal(&account_id) {
            return Err(FactoryError::InvalidChildIdentifier);
        }
        let required = self.get_min_attached_balance(init_args.len());
        let balance = match credit {
            None => {
                return Err(FactoryError::AccountNotRegistered);
            },
            Some(c) => c,
        };
        if balance < required {
            return Err(FactoryError::InsufficientFunds);
        }
        if self.tokens.contains(&name) {
            return Err(FactoryError::NameAlreadyTaken);
        }
        let ghost pre = self@;
        let ghost args_v = args;
        let remaining = Amount::from_yocto(balance).saturating_sub(Amount::from_yocto(required));
        self.storage_deposits.insert(key, remaining.as_yocto());
        let registered = name.clone();
        let inserted = self.tokens.insert(registered, args);
        proof {
            assert(inserted);
            let who = caller.spec_bytes();
            let paid = ledger_after_payment(pre, who, attached).unwrap();
            assert(paid.insert(who, (paid[who] - required) as u128) =~= pre.deposits.insert(
                who,
                (paid[who] - required) as u128,
            ));
        }
        Ok(TokenCreation { name, account_id, required_balance: required, init_args })
    }

    /// The balance a new child starts with: what was reserved for it, less the
    /// price of the `storage_used` bytes its registration took.
    pub fn child_budget(&self, required_balance: u128, storage_used: u64) -> (r: u128)
        ensures
            r == clamp(required_balance - clamp(self@.byte_cost * storage_used)),
    {
        let used = self.storage_byte_cost.saturating_mul(storage_used as u128);
        Amount::from_yocto(required_balance).saturating_sub(used).as_yocto()
    }
}

/// A debit never takes credit below zero: it floors there, however large the
/// debit, and two debits in a row take what one debit of their sum takes.
pub proof fn lemma_debit_saturates(credit: u128, first: u128, second: u128)
    ensures
        clamp(credit - first) == (if first >= credit { 0 } else { credit - first }),
        clamp(clamp(credit - first) - second) == clamp(credit - first - second),
        clamp(clamp(credit - first) - second) >= 0,
{
}

/// A first payment below the registration cost registers nothing.
pub proof fn lemma_short_first_payment_fails(v: FactoryView, account: Seq<u8>, amount: u128)
    requires
        !v.deposits.contains_key(account),
        amount < v.registration_cost,
    ensures
        deposit_outcome(v.deposits, v.registration_cost, account, amount) is None,
{
}

/// A first payment of the registration cost and `extra` more credits exactly
/// `extra`.
pub proof fn lemma_first_payment_credits_the_rest(
    v: FactoryView,
    account: Seq<u8>,
    extra: u128,
)
    requires
        !v.deposits.contains_key(account),
        v.registration_cost + extra <= u128::MAX,
    ensures
        deposit_outcome(
            v.deposits,
            v.registration_cost,
            account,
            (v.registration_cost + extra) as u128,
        ) == Some(v.deposits.insert(account, extra)),
{
}

/// A name is taken at most once: a creation whose name is already taken never
/// succeeds, and fails with `NameAlreadyTaken` wherever every earlier step
/// passes. (A failed creation changes nothing: see `Contract::create_token`.)
pub proof fn lemma_name_taken_once(
    v: FactoryView,
    caller: Seq<u8>,
    attached: u128,
    args: TokenArgs,
    payload_len: nat,
    current_account: Seq<u8>,
)
    requires
        has_name(v.tokens, token_name(args)),
    ensures
        creation_error(v, caller, attached, args, payload_len, current_account) is Some,
        ({
            let paid = ledger_after_payment(v, caller, attached);
            (paid is Some && metadata_valid(args.metadata) && valid_name(token_name(args))
                && legal_account_id(child_of(token_name(args), current_account))
                && paid.unwrap().contains_key(caller) && paid.unwrap()[caller]
                >= creation_cost_of(v.byte_cost, v.code_size, payload_len)) ==> creation_error(
                v,
                caller,
                attached,
                args,
                payload_len,
                current_account,
            ) == Some(FactoryError::NameAlreadyTaken)
        }),
{
}

/// After a successful creation its name is taken.
pub proof fn lemma_created_name_is_taken(
    tokens: Seq<(Seq<u8>, TokenArgs)>,
    args: TokenArgs,
)
    ensures
        has_name(tokens.push((token_name(args), args)), token_name(args)),
{
    let t = tokens.push((token_name(args), args));
    assert(t[tokens.len() as int].0 == token_name(args));
}

/// The quote for an unregistered account is the registration cost plus the
/// creation cost; for a registered one it is the creation cost less its
/// credit, and never below zero. Sums clamp at the largest amount.
pub proof fn lemma_quote(v: FactoryView, payload_len: nat, account: Seq<u8>)
    ensures
        ({
            let cost = creation_cost_of(v.byte_cost, v.code_size, payload_len);
            &&& !v.deposits.contains_key(account) ==> quote_of(v, payload_len, account)
                == clamp(v.registration_cost + cost)
            &&& v.deposits.contains_key(account) ==> quote_of(v, payload_len, account) == (if cost
                >= v.deposits[account] {
                cost - v.deposits[account]
            } else {
                0
            })
        }),
{
}

/// An ASCII letter or digit, of either case.
pub open spec fn is_ascii_alphanumeric(b: u8) -> bool {
    (48 <= b && b <= 57) || (65 <= b && b <= 90) || (97 <= b && b <= 122)
}

/// Names are derived without regard to case: a symbol yields a valid name
/// exactly when it is made of ASCII letters and digits, and symbols that differ
/// only in case yield the same name.
pub proof fn lemma_name_derivation(symbol: Seq<u8>)
    ensures
        valid_name(lower_bytes(symbol)) <==> forall|i: int|
            0 <= i < symbol.len() ==> is_ascii_alphanumeric(#[trigger] symbol[i]),
        lower_bytes(lower_bytes(symbol)) == lower_bytes(symbol),
{
    let l = lower_bytes(symbol);
    if valid_name(l) {
        assert forall|i: int| 0 <= i < symbol.len() implies is_ascii_alphanumeric(
            #[trigger] symbol[i],
        ) by {
            assert(is_name_byte(l[i]));
        }
    }
    if forall|i: int| 0 <= i < symbol.len() ==> is_ascii_alphanumeric(#[trigger] symbol[i]) {
        assert forall|i: int| 0 <= i < l.len() implies is_name_byte(#[trigger] l[i]) by {
            assert(is_ascii_alphanumeric(symbol[i]));
        }
    }
    assert(lower_bytes(l) =~= l);
}

} // verus!
