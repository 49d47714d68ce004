//! Laws of the bridge core that relate several operations, stated over the
//! mathematical model and proved once and for all. The contracts of the
//! executable operations in `state` tie each persisted store to this model,
//! so these laws carry over to any sequence of calls.

use vstd::prelude::*;

use crate::model::{
    authorized, is_approved_spec, is_operator_spec, max_swap_amount_spec, swap_amount_allowed,
    swap_data_spec, with_approval, with_operator, with_swap, BridgeModel, Role, SwapdataView,
};

verus! {

/// Granting an operator takes effect at once: for every admin `admin`, a
/// successful `set_operator(admin, user, true)` leaves a state in which
/// `is_operator(user)` returns `true` — and the admin's call is never
/// rejected as unauthorized.
pub proof fn lemma_set_operator_grants(m: BridgeModel, admin: Seq<char>, user: Seq<char>)
    requires
        authorized(m, Role::Admin, admin),
    ensures
        authorized(with_operator(m, user, true), Role::Operator, user),
        is_operator_spec(with_operator(m, user, true), user),
{
}

/// The swap ledger resolves duplicate writes by order alone: writing
/// `first` and then `second` under one transaction id leaves exactly
/// `second` to be read back — last write wins, with no duplicate-write
/// guard.
pub proof fn lemma_swap_last_write_wins(
    m: BridgeModel,
    transaction_id: Seq<char>,
    first: SwapdataView,
    second: SwapdataView,
)
    ensures
        swap_data_spec(with_swap(with_swap(m, transaction_id, first), transaction_id, second), transaction_id)
            == second,
{
}

/// A token never configured has swap cap `0`, and a swap-amount check
/// against a `0` cap rejects every positive amount.
pub proof fn lemma_unconfigured_cap_rejects(m: BridgeModel, token: Seq<char>, amount: u128)
    requires
        !m.max_swap_amounts.contains_key(token),
        amount > 0,
    ensures
        max_swap_amount_spec(m, token) == 0,
        !swap_amount_allowed(max_swap_amount_spec(m, token), amount),
{
}

/// Approval is immediate and idempotent: after an operator approves a
/// transaction, `is_approve_transaction` returns `true`, and it still does
/// after the approval is repeated.
pub proof fn lemma_approval_idempotent(m: BridgeModel, transaction_id: Seq<char>)
    ensures
        is_approved_spec(with_approval(m, transaction_id, true), transaction_id),
        is_approved_spec(
            with_approval(with_approval(m, transaction_id, true), transaction_id, true),
            transaction_id,
        ),
{
}

} // verus!
