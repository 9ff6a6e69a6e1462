use vstd::prelude::*;
use vstd::string::*;

use crate::error::ContractError;
use crate::events::{Event, ResaleAbortRequestedEvent, ResaleUnlockRequestedEvent};
use crate::registry::{CallContext, TlaRegistry};

verus! {

/// The lowercase hexadecimal digit for `d` (below 16).
pub open spec fn spec_hex_digit(d: int) -> char {
    "0123456789abcdef"@[d]
}

/// The lowercase hexadecimal spelling of `bytes`, two digits per byte.
pub open spec fn spec_hex(bytes: Seq<u8>) -> Seq<char>
    decreases bytes.len(),
{
    if bytes.len() == 0 {
        Seq::empty()
    } else {
        let b = bytes.last();
        spec_hex(bytes.drop_last()).push(spec_hex_digit(b as int / 16)).push(spec_hex_digit(b as int % 16))
    }
}

/// Spells `digest` in lowercase hexadecimal.
pub fn hex_lower(digest: &[u8]) -> (hex: String)
    ensures
        hex@ == spec_hex(digest@),
        hex@.len() == 2 * digest@.len(),
{
    let digits = "0123456789abcdef";
    proof {
        reveal_strlit("0123456789abcdef");
    }
    assert(digits.is_ascii());
    let mut hex = String::new();
    let mut i: usize = 0;
    while i < digest.len()
        invariant
            i <= digest@.len(),
            digits@ == "0123456789abcdef"@,
            digits@.len() == 16,
            digits.is_ascii(),
            hex@ == spec_hex(digest@.take(i as int)),
            hex@.len() == 2 * i,
        decreases digest@.len() - i,
    {
        let b = digest[i];
        let hi = (b / 16) as usize;
        let lo = (b % 16) as usize;
        let ghost before = hex@;
        hex.append(digits.substring_ascii(hi, hi + 1));
        hex.append(digits.substring_ascii(lo, lo + 1));
        proof {
            let t = digest@.take(i as int + 1);
            assert(t.drop_last() =~= digest@.take(i as int));
            assert(t.last() == b);
            assert(digits@.subrange(hi as int, hi as int + 1) =~= seq![spec_hex_digit(hi as int)]);
            assert(digits@.subrange(lo as int, lo as int + 1) =~= seq![spec_hex_digit(lo as int)]);
            assert(hex@ =~= before.push(spec_hex_digit(b as int / 16)).push(spec_hex_digit(b as int % 16)));
        }
        i = i + 1;
    }
    assert(digest@.take(digest@.len() as int) =~= digest@);
    hex
}

impl TlaRegistry {
    /// Admin request that the resale locker at `account` hand control to
    /// `buyer_key`; the locker itself enforces one-shot settlement.
    pub fn resale_unlock(&self, ctx: &CallContext, account: String) -> (r: Result<Event, ContractError>)
        requires
            self.wf(),
        ensures
            r is Ok <==> self@.is_admin(ctx.predecessor@),
            r matches Err(e) ==> e == ContractError::Unauthorized,
            r matches Ok(ev) ==> (ev matches Event::ResaleUnlockRequested(e) && e.account@ == account@
                && e.by@ == ctx.predecessor@),
    {
        self.assert_admin(ctx)?;
        Ok(
            Event::ResaleUnlockRequested(
                ResaleUnlockRequestedEvent { account, by: ctx.predecessor.clone() },
            ),
        )
    }

    /// Admin request that the resale locker at `account` return control to
    /// its recovery key.
    pub fn resale_abort(&self, ctx: &CallContext, account: String) -> (r: Result<Event, ContractError>)
        requires
            self.wf(),
        ensures
            r is Ok <==> self@.is_admin(ctx.predecessor@),
            r matches Err(e) ==> e == ContractError::Unauthorized,
            r matches Ok(ev) ==> (ev matches Event::ResaleAbortRequested(e) && e.account@ == account@
                && e.by@ == ctx.predecessor@),
    {
        self.assert_admin(ctx)?;
        Ok(
            Event::ResaleAbortRequested(
                ResaleAbortRequestedEvent { account, by: ctx.predecessor.clone() },
            ),
        )
    }

    /// The resale locker code the registry publishes.
    pub fn get_resale_locker_wasm(&self) -> (code: Vec<u8>)
        ensures
            code@ == self@.resale_locker_wasm,
    {
        let mut code: Vec<u8> = Vec::new();
        let n = self.resale_locker_wasm.len();
        let mut i: usize = 0;
        while i < n
            invariant
                n == self.resale_locker_wasm@.len(),
                i <= n,
                code@ == self.resale_locker_wasm@.take(i as int),
            decreases n - i,
        {
            code.push(self.resale_locker_wasm[i]);
            i = i + 1;
            proof {
                assert(code@ =~= self.resale_locker_wasm@.take(i as int));
            }
        }
        assert(self.resale_locker_wasm@.take(n as int) =~= self.resale_locker_wasm@);
        code
    }

    /// The published size of the resale locker code: the length of the code
    /// `get_resale_locker_wasm` serves.
    pub fn get_resale_locker_size(&self) -> (n: u64)
        ensures
            n == self@.resale_locker_wasm.len(),
    {
        self.resale_locker_wasm.len() as u64
    }

    /// The published SHA-256 of the bundled resale locker code, given its
    /// digest.
    pub fn get_resale_locker_sha256(&self, digest: &[u8]) -> (hex: String)
        ensures
            hex@ == spec_hex(digest@),
    {
        hex_lower(digest)
    }
}

} // verus!
