use vstd::prelude::*;

verus! {

/// One leg of a transfer: an account and the amount by which its balance
/// is to change.
#[derive(Clone, Copy, Debug, PartialEq, Eq, Structural)]
pub struct TransferComponent {
    pub account_id: u32,
    pub money_delta: i64,
}

impl TransferComponent {
    /// A leg on account 0 that moves nothing.
    pub fn new() -> (r: TransferComponent)
        ensures
            r == (TransferComponent { account_id: 0, money_delta: 0 }),
    {
        TransferComponent { account_id: 0, money_delta: 0 }
    }

    pub fn get_account_id(&self) -> (r: u32)
        ensures
            r == self.account_id,
    {
        self.account_id
    }

    pub fn set_account_id(&mut self, v: u32)
        ensures
            *final(self) == (TransferComponent { account_id: v, money_delta: old(self).money_delta }),
    {
        self.account_id = v;
    }

    pub fn get_money_delta(&self) -> (r: i64)
        ensures
            r == self.money_delta,
    {
        self.money_delta
    }

    pub fn set_money_delta(&mut self, v: i64)
        ensures
            *final(self) == (TransferComponent { account_id: old(self).account_id, money_delta: v }),
    {
        self.money_delta = v;
    }
}

/// The request to create an account with a first balance.
#[derive(Clone, Copy, Debug, PartialEq, Eq, Structural)]
pub struct CreateAccountRequest {
    pub req_id: u64,
    pub account_id: u32,
    pub balance: i64,
}

impl CreateAccountRequest {
    /// A request with every field at zero.
    pub fn new() -> (r: CreateAccountRequest)
        ensures
            r == (CreateAccountRequest { req_id: 0, account_id: 0, balance: 0 }),
    {
        CreateAccountRequest { req_id: 0, account_id: 0, balance: 0 }
    }

    pub fn get_req_id(&self) -> (r: u64)
        ensures
            r == self.req_id,
    {
        self.req_id
    }

    pub fn set_req_id(&mut self, v: u64)
        ensures
            *final(self) == (CreateAccountRequest { req_id: v, ..*old(self) }),
    {
        self.req_id = v;
    }

    pub fn get_account_id(&self) -> (r: u32)
        ensures
            r == self.account_id,
    {
        self.account_id
    }

    pub fn set_account_id(&mut self, v: u32)
        ensures
            *final(self) == (CreateAccountRequest { account_id: v, ..*old(self) }),
    {
        self.account_id = v;
    }

    pub fn get_balance(&self) -> (r: i64)
        ensures
            r == self.balance,
    {
        self.balance
    }

    pub fn set_balance(&mut self, v: i64)
        ensures
            *final(self) == (CreateAccountRequest { balance: v, ..*old(self) }),
    {
        self.balance = v;
    }
}

/// The answer to a request that created an account.
#[derive(Clone, Copy, Debug, PartialEq, Eq, Structural)]
pub struct CreateAccountResponse {
    pub req_id: u64,
    pub account_id: u32,
}

impl CreateAccountResponse {
    pub fn get_req_id(&self) -> (r: u64)
        ensures
            r == self.req_id,
    {
        self.req_id
    }

    pub fn get_account_id(&self) -> (r: u32)
        ensures
            r == self.account_id,
    {
        self.account_id
    }
}

/// The request for the balance of an account.
#[derive(Clone, Copy, Debug, PartialEq, Eq, Structural)]
pub struct GetBalanceRequest {
    pub req_id: u64,
    pub account_id: u32,
}

impl GetBalanceRequest {
    /// A request with every field at zero.
    pub fn new() -> (r: GetBalanceRequest)
        ensures
            r == (GetBalanceRequest { req_id: 0, account_id: 0 }),
    {
        GetBalanceRequest { req_id: 0, account_id: 0 }
    }

    pub fn get_req_id(&self) -> (r: u64)
        ensures
            r == self.req_id,
    {
        self.req_id
    }

    pub fn set_req_id(&mut self, v: u64)
        ensures
            *final(self) == (GetBalanceRequest { req_id: v, ..*old(self) }),
    {
        self.req_id = v;
    }

    pub fn get_account_id(&self) -> (r: u32)
        ensures
            r == self.account_id,
    {
        self.account_id
    }

    pub fn set_account_id(&mut self, v: u32)
        ensures
            *final(self) == (GetBalanceRequest { account_id: v, ..*old(self) }),
    {
        self.account_id = v;
    }
}

/// The answer to a request for a balance.
#[derive(Clone, Copy, Debug, PartialEq, Eq, Structural)]
pub struct GetBalanceResponse {
    pub req_id: u64,
    pub account_id: u32,
    pub balance: i64,
}

impl GetBalanceResponse {
    pub fn get_req_id(&self) -> (r: u64)
        ensures
            r == self.req_id,
    {
        self.req_id
    }

    pub fn get_account_id(&self) -> (r: u32)
        ensures
            r == self.account_id,
    {
        self.account_id
    }

    pub fn get_balance(&self) -> (r: i64)
        ensures
            r == self.balance,
    {
        self.balance
    }
}

/// The request to apply the legs of a transfer, in their order, as one
/// unit.
#[derive(Debug)]
pub struct TransferRequest {
    pub req_id: u64,
    pub components: Vec<TransferComponent>,
}

impl TransferRequest {
    /// A request with the id 0 and no leg.
    pub fn new() -> (r: TransferRequest)
        ensures
            r.req_id == 0,
            r.components@ == Seq::<TransferComponent>::empty(),
    {
        TransferRequest { req_id: 0, components: Vec::new() }
    }

    pub fn get_req_id(&self) -> (r: u64)
        ensures
            r == self.req_id,
    {
        self.req_id
    }

    pub fn set_req_id(&mut self, v: u64)
        ensures
            final(self).req_id == v,
            final(self).components == old(self).components,
    {
        self.req_id = v;
    }

    /// The legs, in their order.
    pub fn get_components(&self) -> (r: &[TransferComponent])
        ensures
            r@ == self.components@,
    {
        self.components.as_slice()
    }

    /// A request with the same id and the same legs.
    pub fn duplicate(&self) -> (r: TransferRequest)
        ensures
            r.req_id == self.req_id,
            r.components@ == self.components@,
    {
        let mut components: Vec<TransferComponent> = Vec::new();
        let mut i: usize = 0;
        while i < self.components.len()
            invariant
                i <= self.components.len(),
                components@ == self.components@.take(i as int),
            decreases self.components.len() - i,
        {
            components.push(self.components[i]);
            assert(self.components@.take(i + 1) =~= self.components@.take(i as int).push(
                self.components@[i as int],
            ));
            i = i + 1;
        }
        assert(self.components@.take(self.components.len() as int) =~= self.components@);
        TransferRequest { req_id: self.req_id, components }
    }
}

/// The answer to a request that applied a transfer.
#[derive(Clone, Copy, Debug, PartialEq, Eq, Structural)]
pub struct TransferResponse {
    pub req_id: u64,
}

impl TransferResponse {
    pub fn get_req_id(&self) -> (r: u64)
        ensures
            r == self.req_id,
    {
        self.req_id
    }
}

/// The request to destroy the ledger and set up an empty one.
#[derive(Clone, Copy, Debug, PartialEq, Eq, Structural)]
pub struct ResetRequest {}

/// The answer to a request that set up an empty ledger.
#[derive(Clone, Copy, Debug, PartialEq, Eq, Structural)]
pub struct ResetResponse {}

} // verus!
