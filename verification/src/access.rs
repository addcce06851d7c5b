use vstd::prelude::*;

use crate::account::Account;
use crate::errors::LiquidityPoolError;
use crate::pool::LiquidityPoolContract;
use crate::spec::{admin_refusal, creditline_refusal};

verus! {

/// Accepts `caller` only if it is the pool's administrator.
pub fn require_admin(pool: &LiquidityPoolContract, caller: &Account) -> (r: Result<
    (),
    LiquidityPoolError,
>)
    ensures
        r is Ok <==> admin_refusal(pool@, caller@) is None,
        r matches Err(e) ==> admin_refusal(pool@, caller@) == Some(e),
{
    match &pool.admin {
        None => Err(LiquidityPoolError::NotInitialized),
        Some(admin) => {
            if admin.same_as(caller) {
                Ok(())
            } else {
                Err(LiquidityPoolError::NotAdmin)
            }
        },
    }
}

/// Accepts `caller` only if it is the registered credit line.
pub fn require_creditline(pool: &LiquidityPoolContract, caller: &Account) -> (r: Result<
    (),
    LiquidityPoolError,
>)
    ensures
        r is Ok <==> creditline_refusal(pool@, caller@) is None,
        r matches Err(e) ==> creditline_refusal(pool@, caller@) == Some(e),
{
    match &pool.creditline {
        None => Err(LiquidityPoolError::NotCreditLine),
        Some(creditline) => {
            if creditline.same_as(caller) {
                Ok(())
            } else {
                Err(LiquidityPoolError::NotCreditLine)
            }
        },
    }
}

} // verus!
