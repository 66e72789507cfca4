use vstd::prelude::*;

use crate::constants::MAX_ALLOWED_FEE_IN_BPS;
use crate::errors::CustomErrors;
use crate::identity::Identity;

verus! {

/// The platform configuration: who owns it, the fee rate, the fees collected
/// so far, and the defaults that each new launch copies.
#[derive(Debug, Clone, Copy, PartialEq, Eq)]
pub struct Platform {
    pub owner: Identity,
    pub fee_in_bps: u64,
    pub accumulated_fees: u64,
    pub total_supply: u64,
    pub virtual_sol: u64,
    pub target_pool_balance: u64,
}

/// The values a platform is set up with.
#[derive(Debug, Clone, Copy, PartialEq, Eq)]
pub struct PlatformInitParams {
    pub owner: Identity,
    pub fee_in_bps: u64,
    pub total_supply: u64,
    pub virtual_sol: u64,
    pub target_pool_balance: u64,
}

impl Platform {
    /// The fee rate is within the cap.
    pub open spec fn wf(&self) -> bool {
        self.fee_in_bps <= MAX_ALLOWED_FEE_IN_BPS
    }

    /// Whether `fee_amount` can be added to the collected fees without overflow.
    pub open spec fn can_accrue(&self, fee_amount: u64) -> bool {
        self.accumulated_fees + fee_amount <= u64::MAX
    }

    /// The platform after `fee_amount` has been added to the collected fees.
    pub open spec fn accrued(&self, fee_amount: u64) -> Platform {
        Platform { accumulated_fees: (self.accumulated_fees + fee_amount) as u64, ..*self }
    }

    /// Credits `fee_amount` to the collected fees; refuses with `Overflow`,
    /// changing nothing, where the sum does not fit.
    pub fn accrue(&mut self, fee_amount: u64) -> (r: Result<(), CustomErrors>)
        ensures
            old(self).can_accrue(fee_amount) ==> r is Ok && *final(self) == old(self).accrued(
                fee_amount,
            ),
            !old(self).can_accrue(fee_amount) ==> r == Err::<(), CustomErrors>(
                CustomErrors::Overflow,
            ) && *final(self) == *old(self),
    {
        if fee_amount > u64::MAX - self.accumulated_fees {
            return Err(CustomErrors::Overflow);
        }
        self.accumulated_fees = self.accumulated_fees + fee_amount;
        Ok(())
    }
}

/// Sets up the platform from `init_params`, with no fees collected; refuses a
/// fee rate above the cap with `ExcessiveFees`.
pub fn initialize(init_params: PlatformInitParams) -> (r: Result<Platform, CustomErrors>)
    ensures
        init_params.fee_in_bps <= MAX_ALLOWED_FEE_IN_BPS ==> r == Ok::<Platform, CustomErrors>(
            (Platform {
                owner: init_params.owner,
                fee_in_bps: init_params.fee_in_bps,
                accumulated_fees: 0,
                total_supply: init_params.total_supply,
                virtual_sol: init_params.virtual_sol,
                target_pool_balance: init_params.target_pool_balance,
            }),
        ),
        init_params.fee_in_bps > MAX_ALLOWED_FEE_IN_BPS ==> r == Err::<Platform, CustomErrors>(
            CustomErrors::ExcessiveFees,
        ),
        r matches Ok(p) ==> p.wf(),
{
    if init_params.fee_in_bps > MAX_ALLOWED_FEE_IN_BPS {
        return Err(CustomErrors::ExcessiveFees);
    }
    Ok(
        Platform {
            owner: init_params.owner,
            fee_in_bps: init_params.fee_in_bps,
            accumulated_fees: 0,
            total_supply: init_params.total_supply,
            virtual_sol: init_params.virtual_sol,
            target_pool_balance: init_params.target_pool_balance,
        },
    )
}

/// Hands the platform to `new_owner`; only the current owner may.
pub fn change_owner(platform: &mut Platform, signer: &Identity, new_owner: Identity) -> (r: Result<
    (),
    CustomErrors,
>)
    ensures
        signer@ == old(platform).owner@ ==> r is Ok && *final(platform) == (Platform {
            owner: new_owner,
            ..*old(platform)
        }),
        signer@ != old(platform).owner@ ==> r == Err::<(), CustomErrors>(CustomErrors::NotOwner)
            && *final(platform) == *old(platform),
{
    if !signer.same_as(&platform.owner) {
        return Err(CustomErrors::NotOwner);
    }
    platform.owner = new_owner;
    Ok(())
}

/// Sets the fee rate; only the owner may, and the rate may not exceed the cap.
pub fn change_fees(platform: &mut Platform, signer: &Identity, new_fees: u64) -> (r: Result<
    (),
    CustomErrors,
>)
    ensures
        signer@ != old(platform).owner@ ==> r == Err::<(), CustomErrors>(CustomErrors::NotOwner)
            && *final(platform) == *old(platform),
        signer@ == old(platform).owner@ && new_fees > MAX_ALLOWED_FEE_IN_BPS ==> r == Err::<
            (),
            CustomErrors,
        >(CustomErrors::ExcessiveFees) && *final(platform) == *old(platform),
        signer@ == old(platform).owner@ && new_fees <= MAX_ALLOWED_FEE_IN_BPS ==> r is Ok
            && *final(platform) == (Platform { fee_in_bps: new_fees, ..*old(platform) }),
        old(platform).wf() ==> final(platform).wf(),
{
    if !signer.same_as(&platform.owner) {
        return Err(CustomErrors::NotOwner);
    }
    if new_fees > MAX_ALLOWED_FEE_IN_BPS {
        return Err(CustomErrors::ExcessiveFees);
    }
    platform.fee_in_bps = new_fees;
    Ok(())
}

/// Sets the total supply given to launches created from now on; only the owner may.
pub fn change_total_supply(platform: &mut Platform, signer: &Identity, new_total_supply: u64) -> (r:
    Result<(), CustomErrors>)
    ensures
        signer@ == old(platform).owner@ ==> r is Ok && *final(platform) == (Platform {
            total_supply: new_total_supply,
            ..*old(platform)
        }),
        signer@ != old(platform).owner@ ==> r == Err::<(), CustomErrors>(CustomErrors::NotOwner)
            && *final(platform) == *old(platform),
{
    if !signer.same_as(&platform.owner) {
        return Err(CustomErrors::NotOwner);
    }
    platform.total_supply = new_total_supply;
    Ok(())
}

/// Sets the virtual SOL seed given to launches created from now on; only the owner may.
pub fn change_virtual_sol_amount(
    platform: &mut Platform,
    signer: &Identity,
    new_virtual_sol_amount: u64,
) -> (r: Result<(), CustomErrors>)
    ensures
        signer@ == old(platform).owner@ ==> r is Ok && *final(platform) == (Platform {
            virtual_sol: new_virtual_sol_amount,
            ..*old(platform)
        }),
        signer@ != old(platform).owner@ ==> r == Err::<(), CustomErrors>(CustomErrors::NotOwner)
            && *final(platform) == *old(platform),
{
    if !signer.same_as(&platform.owner) {
        return Err(CustomErrors::NotOwner);
    }
    platform.virtual_sol = new_virtual_sol_amount;
    Ok(())
}

/// Sets the target pool balance given to launches created from now on; only the owner may.
pub fn change_target_pool_balance(
    platform: &mut Platform,
    signer: &Identity,
    new_target_pool_balance: u64,
) -> (r: Result<(), CustomErrors>)
    ensures
        signer@ == old(platform).owner@ ==> r is Ok && *final(platform) == (Platform {
            target_pool_balance: new_target_pool_balance,
            ..*old(platform)
        }),
        signer@ != old(platform).owner@ ==> r == Err::<(), CustomErrors>(CustomErrors::NotOwner)
            && *final(platform) == *old(platform),
{
    if !signer.same_as(&platform.owner) {
        return Err(CustomErrors::NotOwner);
    }
    platform.target_pool_balance = new_target_pool_balance;
    Ok(())
}

/// Reads and clears the collected fees in one step; only the owner may. The
/// amount returned is what the caller is to pay out to the owner.
pub fn withdraw_fees(platform: &mut Platform, signer: &Identity) -> (r: Result<u64, CustomErrors>)
    ensures
        signer@ == old(platform).owner@ ==> r == Ok::<u64, CustomErrors>(
            old(platform).accumulated_fees,
        ) && *final(platform) == (Platform { accumulated_fees: 0, ..*old(platform) }),
        signer@ != old(platform).owner@ ==> r == Err::<u64, CustomErrors>(CustomErrors::NotOwner)
            && *final(platform) == *old(platform),
{
    if !signer.same_as(&platform.owner) {
        return Err(CustomErrors::NotOwner);
    }
    let accumulated_fees = platform.accumulated_fees;
    platform.accumulated_fees = 0;
    Ok(accumulated_fees)
}

} // verus!
