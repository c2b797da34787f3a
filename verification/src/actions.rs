//! The projection engine, part two: actions, access keys and delegated
//! batches.

use vstd::prelude::*;
use crate::domain::DomainAccessKey;
use crate::domain::DomainAccessKeyPermission;
use crate::domain::DomainAction;
use crate::domain::DomainDelegateAction;
use crate::domain::DomainNonDelegateAction;
use crate::pb;
use crate::project::rel_big;
use crate::project::rel_public_key;
use crate::project::rel_signature_opt;
use crate::project::project_big;
use crate::project::project_public_key;
use crate::project::project_signature;
use crate::util::copy_bytes;
use crate::util::copy_bytes_list;

verus! {

/// The wire form of an access key.
pub open spec fn rel_access_key(d: DomainAccessKey, w: Option<pb::AccessKey>) -> bool {
    w matches Some(k) && k.nonce == d.nonce && (match d.permission {
        DomainAccessKeyPermission::FunctionCall { allowance, receiver_id, method_names } => {
            &&& k.permission matches Some(p)
            &&& p.permission matches Some(
                pb::access_key_permission::Permission::FunctionCall(fc),
            )
            &&& (match allowance {
                Some(a) => rel_big(a, fc.allowance),
                None => fc.allowance is None,
            })
            &&& fc.receiver_id@ == receiver_id@
            &&& fc.method_names@.len() == method_names@.len()
            &&& (forall|i: int|
                0 <= i < method_names@.len() ==> fc.method_names@[i]@ == method_names@[i]@)
        },
        DomainAccessKeyPermission::FullAccess => {
            &&& k.permission matches Some(p)
            &&& p.permission matches Some(pb::access_key_permission::Permission::FullAccess(_f))
        },
    })
}

/// The wire alternative corresponding to each domain action variant; the
/// wire action has exactly that alternative populated, its payload
/// carried over field by field with balances big-endian encoded.
pub open spec fn rel_action(d: DomainAction, w: pb::Action) -> bool {
    match d {
        DomainAction::CreateAccount => w.action matches Some(
            pb::action::Action::CreateAccount(_p),
        ),
        DomainAction::DeployContract { code } => w.action matches Some(
            pb::action::Action::DeployContract(p),
        ) && p.code@ == code@,
        DomainAction::FunctionCall { method_name, args, gas, deposit } => w.action matches Some(
            pb::action::Action::FunctionCall(p),
        ) && p.method_name@ == method_name@ && p.args@ == args@ && p.gas == gas && rel_big(
            deposit,
            p.deposit,
        ),
        DomainAction::Transfer { deposit } => w.action matches Some(
            pb::action::Action::Transfer(p),
        ) && rel_big(deposit, p.deposit),
        DomainAction::Stake { stake, public_key } => w.action matches Some(
            pb::action::Action::Stake(p),
        ) && rel_big(stake, p.stake) && rel_public_key(public_key, p.public_key),
        DomainAction::AddKey { public_key, access_key } => w.action matches Some(
            pb::action::Action::AddKey(p),
        ) && rel_public_key(public_key, p.public_key) && rel_access_key(
            access_key,
            p.access_key,
        ),
        DomainAction::DeleteKey { public_key } => w.action matches Some(
            pb::action::Action::DeleteKey(p),
        ) && rel_public_key(public_key, p.public_key),
        DomainAction::DeleteAccount { beneficiary_id } => w.action matches Some(
            pb::action::Action::DeleteAccount(p),
        ) && p.beneficiary_id@ == beneficiary_id@,
        DomainAction::Delegate { delegate_action, signature } => w.action matches Some(
            pb::action::Action::Delegate(p),
        ) && (p.delegate_action matches Some(da) && rel_delegate_action(delegate_action, da))
            && rel_signature_opt(signature, p.signature),
    }
}

/// The wire alternative corresponding to each nested, non-delegating
/// domain action variant.
pub open spec fn rel_non_delegate_action(d: DomainNonDelegateAction, w: pb::NonDelegateAction)
    -> bool {
    match d {
        DomainNonDelegateAction::CreateAccount => w.action matches Some(
            pb::non_delegate_action::Action::CreateAccount(_p),
        ),
        DomainNonDelegateAction::DeployContract { code } => w.action matches Some(
            pb::non_delegate_action::Action::DeployContract(p),
        ) && p.code@ == code@,
        DomainNonDelegateAction::FunctionCall { method_name, args, gas, deposit } => w.action
            matches Some(pb::non_delegate_action::Action::FunctionCall(p))
            && p.method_name@ == method_name@ && p.args@ == args@ && p.gas == gas && rel_big(
            deposit,
            p.deposit,
        ),
        DomainNonDelegateAction::Transfer { deposit } => w.action matches Some(
            pb::non_delegate_action::Action::Transfer(p),
        ) && rel_big(deposit, p.deposit),
        DomainNonDelegateAction::Stake { stake, public_key } => w.action matches Some(
            pb::non_delegate_action::Action::Stake(p),
        ) && rel_big(stake, p.stake) && rel_public_key(public_key, p.public_key),
        DomainNonDelegateAction::AddKey { public_key, access_key } => w.action matches Some(
            pb::non_delegate_action::Action::AddKey(p),
        ) && rel_public_key(public_key, p.public_key) && rel_access_key(
            access_key,
            p.access_key,
        ),
        DomainNonDelegateAction::DeleteKey { public_key } => w.action matches Some(
            pb::non_delegate_action::Action::DeleteKey(p),
        ) && rel_public_key(public_key, p.public_key),
        DomainNonDelegateAction::DeleteAccount { beneficiary_id } => w.action matches Some(
            pb::non_delegate_action::Action::DeleteAccount(p),
        ) && p.beneficiary_id@ == beneficiary_id@,
    }
}

/// The wire form of a delegated batch: its own sender, receiver, nested
/// actions in order, nonce, expiry height and signing key.
pub open spec fn rel_delegate_action(d: DomainDelegateAction, w: pb::DelegateAction) -> bool {
    &&& w.sender_id@ == d.sender_id@
    &&& w.receiver_id@ == d.receiver_id@
    &&& w.actions@.len() == d.actions@.len()
    &&& (forall|i: int|
        0 <= i < d.actions@.len() ==> rel_non_delegate_action(d.actions@[i], w.actions@[i]))
    &&& w.nonce == d.nonce
    &&& w.max_block_height == d.max_block_height
    &&& rel_public_key(d.public_key, w.public_key)
}

/// The position of a wire action alternative in the closed union, or
/// zero where none is populated.
pub open spec fn wire_action_tag(w: pb::Action) -> int {
    match w.action {
        Option::None => 0,
        Option::Some(pb::action::Action::CreateAccount(_p)) => 1,
        Option::Some(pb::action::Action::DeployContract(_p)) => 2,
        Option::Some(pb::action::Action::FunctionCall(_p)) => 3,
        Option::Some(pb::action::Action::Transfer(_p)) => 4,
        Option::Some(pb::action::Action::Stake(_p)) => 5,
        Option::Some(pb::action::Action::AddKey(_p)) => 6,
        Option::Some(pb::action::Action::DeleteKey(_p)) => 7,
        Option::Some(pb::action::Action::DeleteAccount(_p)) => 8,
        Option::Some(pb::action::Action::Delegate(_p)) => 9,
    }
}

/// The position of a domain action variant in the closed union.
pub open spec fn domain_action_tag(d: DomainAction) -> int {
    match d {
        DomainAction::CreateAccount => 1,
        DomainAction::DeployContract { .. } => 2,
        DomainAction::FunctionCall { .. } => 3,
        DomainAction::Transfer { .. } => 4,
        DomainAction::Stake { .. } => 5,
        DomainAction::AddKey { .. } => 6,
        DomainAction::DeleteKey { .. } => 7,
        DomainAction::DeleteAccount { .. } => 8,
        DomainAction::Delegate { .. } => 9,
    }
}

/// A projected action has exactly one populated alternative, and it is
/// the one at the domain variant's own position in the closed union: the
/// semantically corresponding alternative, never another.
pub proof fn lemma_action_projection_exhaustive(d: DomainAction, w: pb::Action)
    requires
        rel_action(d, w),
    ensures
        w.action is Some,
        wire_action_tag(w) == domain_action_tag(d),
{
}

/// Project an access key.
pub fn project_access_key(d: &DomainAccessKey) -> (r: pb::AccessKey)
    ensures
        rel_access_key(*d, Some(r)),
{
    let permission = match &d.permission {
        DomainAccessKeyPermission::FunctionCall { allowance, receiver_id, method_names } => {
            pb::access_key_permission::Permission::FunctionCall(
                pb::FunctionCallPermission {
                    allowance: match allowance {
                        Some(a) => Some(project_big(*a)),
                        None => None,
                    },
                    receiver_id: copy_bytes(receiver_id),
                    method_names: copy_bytes_list(method_names),
                },
            )
        },
        DomainAccessKeyPermission::FullAccess => pb::access_key_permission::Permission::FullAccess(
            pb::FullAccessPermission {},
        ),
    };
    pb::AccessKey {
        nonce: d.nonce,
        permission: Some(pb::AccessKeyPermission { permission: Some(permission) }),
    }
}

/// Project one nested, non-delegating action.
pub fn project_non_delegate_action(d: &DomainNonDelegateAction) -> (r: pb::NonDelegateAction)
    ensures
        rel_non_delegate_action(*d, r),
{
    let action = match d {
        DomainNonDelegateAction::CreateAccount => pb::non_delegate_action::Action::CreateAccount(
            pb::CreateAccountAction {},
        ),
        DomainNonDelegateAction::DeployContract { code } =>
            pb::non_delegate_action::Action::DeployContract(
                pb::DeployContractAction { code: copy_bytes(code) },
            ),
        DomainNonDelegateAction::FunctionCall { method_name, args, gas, deposit } =>
            pb::non_delegate_action::Action::FunctionCall(
                pb::FunctionCallAction {
                    method_name: copy_bytes(method_name),
                    args: copy_bytes(args),
                    gas: *gas,
                    deposit: Some(project_big(*deposit)),
                },
            ),
        DomainNonDelegateAction::Transfer { deposit } => pb::non_delegate_action::Action::Transfer(
            pb::TransferAction { deposit: Some(project_big(*deposit)) },
        ),
        DomainNonDelegateAction::Stake { stake, public_key } =>
            pb::non_delegate_action::Action::Stake(
                pb::StakeAction {
                    stake: Some(project_big(*stake)),
                    public_key: Some(project_public_key(public_key)),
                },
            ),
        DomainNonDelegateAction::AddKey { public_key, access_key } =>
            pb::non_delegate_action::Action::AddKey(
                pb::AddKeyAction {
                    public_key: Some(project_public_key(public_key)),
                    access_key: Some(project_access_key(access_key)),
                },
            ),
        DomainNonDelegateAction::DeleteKey { public_key } =>
            pb::non_delegate_action::Action::DeleteKey(
                pb::DeleteKeyAction { public_key: Some(project_public_key(public_key)) },
            ),
        DomainNonDelegateAction::DeleteAccount { beneficiary_id } =>
            pb::non_delegate_action::Action::DeleteAccount(
                pb::DeleteAccountAction { beneficiary_id: copy_bytes(beneficiary_id) },
            ),
    };
    pb::NonDelegateAction { action: Some(action) }
}

/// Project the ordered nested actions of a delegated batch.
pub fn project_non_delegate_actions(d: &Vec<DomainNonDelegateAction>) -> (r: Vec<
    pb::NonDelegateAction,
>)
    ensures
        r@.len() == d@.len(),
        forall|i: int| 0 <= i < d@.len() ==> rel_non_delegate_action(d@[i], r@[i]),
{
    let mut r: Vec<pb::NonDelegateAction> = Vec::new();
    let n = d.len();
    let mut i: usize = 0;
    while i < n
        invariant
            i <= n,
            n == d@.len(),
            r@.len() == i,
            forall|j: int| 0 <= j < i ==> rel_non_delegate_action(d@[j], r@[j]),
        decreases n - i,
    {
        let item = project_non_delegate_action(&d[i]);
        r.push(item);
        i = i + 1;
    }
    r
}

/// Project one domain action onto the wire action: exactly the
/// corresponding alternative of the union is populated.
pub fn project_action(d: &DomainAction) -> (r: pb::Action)
    ensures
        rel_action(*d, r),
{
    let action = match d {
        DomainAction::CreateAccount => pb::action::Action::CreateAccount(
            pb::CreateAccountAction {},
        ),
        DomainAction::DeployContract { code } => pb::action::Action::DeployContract(
            pb::DeployContractAction { code: copy_bytes(code) },
        ),
        DomainAction::FunctionCall { method_name, args, gas, deposit } =>
            pb::action::Action::FunctionCall(
                pb::FunctionCallAction {
                    method_name: copy_bytes(method_name),
                    args: copy_bytes(args),
                    gas: *gas,
                    deposit: Some(project_big(*deposit)),
                },
            ),
        DomainAction::Transfer { deposit } => pb::action::Action::Transfer(
            pb::TransferAction { deposit: Some(project_big(*deposit)) },
        ),
        DomainAction::Stake { stake, public_key } => pb::action::Action::Stake(
            pb::StakeAction {
                stake: Some(project_big(*stake)),
                public_key: Some(project_public_key(public_key)),
            },
        ),
        DomainAction::AddKey { public_key, access_key } => pb::action::Action::AddKey(
            pb::AddKeyAction {
                public_key: Some(project_public_key(public_key)),
                access_key: Some(project_access_key(access_key)),
            },
        ),
        DomainAction::DeleteKey { public_key } => pb::action::Action::DeleteKey(
            pb::DeleteKeyAction { public_key: Some(project_public_key(public_key)) },
        ),
        DomainAction::DeleteAccount { beneficiary_id } => pb::action::Action::DeleteAccount(
            pb::DeleteAccountAction { beneficiary_id: copy_bytes(beneficiary_id) },
        ),
        DomainAction::Delegate { delegate_action, signature } => pb::action::Action::Delegate(
            pb::SignedDelegateAction {
                delegate_action: Some(
                    pb::DelegateAction {
                        sender_id: copy_bytes(&delegate_action.sender_id),
                        receiver_id: copy_bytes(&delegate_action.receiver_id),
                        actions: project_non_delegate_actions(&delegate_action.actions),
                        nonce: delegate_action.nonce,
                        max_block_height: delegate_action.max_block_height,
                        public_key: Some(project_public_key(&delegate_action.public_key)),
                    },
                ),
                signature: Some(project_signature(signature)),
            },
        ),
    };
    pb::Action { action: Some(action) }
}

/// Project an ordered list of actions.
pub fn project_actions(d: &Vec<DomainAction>) -> (r: Vec<pb::Action>)
    ensures
        r@.len() == d@.len(),
        forall|i: int| 0 <= i < d@.len() ==> rel_action(d@[i], r@[i]),
{
    let mut r: Vec<pb::Action> = Vec::new();
    let n = d.len();
    let mut i: usize = 0;
    while i < n
        invariant
            i <= n,
            n == d@.len(),
            r@.len() == i,
            forall|j: int| 0 <= j < i ==> rel_action(d@[j], r@[j]),
        decreases n - i,
    {
        let item = project_action(&d[i]);
        r.push(item);
        i = i + 1;
    }
    r
}

} // verus!
