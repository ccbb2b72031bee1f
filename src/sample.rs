//! A small annotated contract that the scanner is exercised on: a counter
//! with an initializer, mutators, a view, a payable helper, a trait
//! implementation and event builders.
use vstd::prelude::*;

verus! {

/// The counter contract.
#[derive(Debug, Default)]
pub struct Contract {
    pub count: u64,
}

/// A helper type of the contract.
#[derive(Debug)]
pub struct SomeStruct {}

/// A helper type outside the contract.
#[derive(Debug)]
pub struct ExampleStruct;

/// What `add` adds for an amount: the amount, and two more when the amount is two.
pub open spec fn added_for(amount: u64) -> int {
    if amount == 2 {
        amount + 2
    } else {
        amount as int
    }
}

impl Contract {
    pub fn new(count: u64) -> (r: Self)
        ensures
            r.count == count,
    {
        Contract { count }
    }

    pub fn add(&mut self, amount: u64)
        requires
            old(self).count + added_for(amount) <= u64::MAX,
        ensures
            final(self).count == old(self).count + added_for(amount),
    {
        if amount == 2 {
            self.count = SomeStruct::add_two(self.count);
        }
        self.add_amount(amount);
    }

    pub fn show_amount(self) -> (r: u64)
        ensures
            r == self.count,
    {
        self.count
    }

    fn add_amount(&mut self, amount: u64)
        requires
            old(self).count + amount <= u64::MAX,
        ensures
            final(self).count == old(self).count + amount,
    {
        self.count = self.count + amount;
    }

    pub fn multiply(&mut self, num: u64)
        requires
            old(self).count * num <= u64::MAX,
        ensures
            final(self).count == old(self).count * num,
    {
        self.count = self.count * num;
    }
}

impl SomeStruct {
    pub fn add_two(count: u64) -> (r: u64)
        requires
            count + 2 <= u64::MAX,
        ensures
            r == count + 2,
    {
        count + 2
    }
}

impl ExampleStruct {
    pub fn foo(bar: Vec<u8>) -> (r: usize)
        ensures
            r == bar.len(),
    {
        bar.len()
    }
}

/// The calls of the contract that go through a trait.
pub trait SomeTrait {
    /// The amount the trait calls work on.
    spec fn amount(&self) -> nat;

    fn view_trait_fn(&self) -> (r: u64)
        requires
            self.amount() * 10 <= u64::MAX,
        ensures
            r == self.amount() * 10,
    ;

    fn call_trait_fn(&mut self)
        requires
            old(self).amount() < u64::MAX,
        ensures
            final(self).amount() == old(self).amount() + 1,
    ;
}

impl SomeTrait for Contract {
    open spec fn amount(&self) -> nat {
        self.count as nat
    }

    fn view_trait_fn(&self) -> (r: u64) {
        self.count * 10
    }

    fn call_trait_fn(&mut self) {
        self.count = self.count + 1;
    }
}

/// An event of the contract, by standard.
#[derive(Debug)]
pub enum NearEvent {
    Nep171(Nep171Event),
}

/// An event of the non-fungible token standard, with its version.
#[derive(Debug)]
pub struct Nep171Event {
    pub version: String,
    pub event_kind: Nep171EventKind,
}

/// The kinds of token events, each with its records.
#[derive(Debug)]
pub enum Nep171EventKind {
    NftMint(Vec<NftMintData>),
    NftTransfer(Vec<NftTransferData>),
    NftBurn(Vec<NftBurnData>),
}

#[derive(Debug)]
pub struct NftMintData {
    pub owner_id: String,
    pub token_ids: Vec<String>,
    pub memo: Option<String>,
}

#[derive(Debug)]
pub struct NftTransferData {
    pub authorized_id: Option<String>,
    pub old_owner_id: String,
    pub new_owner_id: String,
    pub token_ids: Vec<String>,
    pub memo: Option<String>,
}

#[derive(Debug)]
pub struct NftBurnData {
    pub authorized_id: Option<String>,
    pub owner_id: String,
    pub token_ids: Vec<String>,
    pub memo: Option<String>,
}

/// Whether an event is a token event of version `1.0.0` of the given kind.
pub open spec fn is_v1_event(e: NearEvent, kind: Nep171EventKind) -> bool {
    match e {
        NearEvent::Nep171(ev) => ev.version@ == "1.0.0"@ && ev.event_kind == kind,
    }
}

impl NearEvent {
    pub fn new_171(version: String, event_kind: Nep171EventKind) -> (r: Self)
        ensures
            r == NearEvent::Nep171(Nep171Event { version, event_kind }),
    {
        NearEvent::Nep171(Nep171Event { version, event_kind })
    }

    pub fn new_171_v1(event_kind: Nep171EventKind) -> (r: Self)
        ensures
            is_v1_event(r, event_kind),
    {
        NearEvent::new_171(String::from_str("1.0.0"), event_kind)
    }

    pub fn nft_burn(data: Vec<NftBurnData>) -> (r: Self)
        ensures
            is_v1_event(r, Nep171EventKind::NftBurn(data)),
    {
        NearEvent::new_171_v1(Nep171EventKind::NftBurn(data))
    }

    pub fn nft_transfer(data: Vec<NftTransferData>) -> (r: Self)
        ensures
            is_v1_event(r, Nep171EventKind::NftTransfer(data)),
    {
        NearEvent::new_171_v1(Nep171EventKind::NftTransfer(data))
    }

    pub fn nft_mint(data: Vec<NftMintData>) -> (r: Self)
        ensures
            is_v1_event(r, Nep171EventKind::NftMint(data)),
    {
        NearEvent::new_171_v1(Nep171EventKind::NftMint(data))
    }

    /// The event that records one mint; the caller logs it.
    pub fn log_nft_mint(owner_id: String, token_ids: Vec<String>, memo: Option<String>) -> (r: Self)
        ensures
            match r {
                NearEvent::Nep171(ev) => ev.version@ == "1.0.0"@ && match ev.event_kind {
                    Nep171EventKind::NftMint(v) => v@ == seq![
                        NftMintData { owner_id, token_ids, memo },
                    ],
                    _ => false,
                },
            },
    {
        let data = vec![NftMintData { owner_id, token_ids, memo }];
        NearEvent::log_nft_mints(data)
    }

    /// The event that records some mints; the caller logs it.
    pub fn log_nft_mints(data: Vec<NftMintData>) -> (r: Self)
        ensures
            is_v1_event(r, Nep171EventKind::NftMint(data)),
    {
        NearEvent::nft_mint(data)
    }

    /// The event that records one transfer; the caller logs it.
    pub fn log_nft_transfer(
        old_owner_id: String,
        new_owner_id: String,
        token_ids: Vec<String>,
        memo: Option<String>,
        authorized_id: Option<String>,
    ) -> (r: Self)
        ensures
            match r {
                NearEvent::Nep171(ev) => ev.version@ == "1.0.0"@ && match ev.event_kind {
                    Nep171EventKind::NftTransfer(v) => v@ == seq![
                        NftTransferData {
                            authorized_id,
                            old_owner_id,
                            new_owner_id,
                            token_ids,
                            memo,
                        },
                    ],
                    _ => false,
                },
            },
    {
        let data = vec![
            NftTransferData { authorized_id, old_owner_id, new_owner_id, token_ids, memo },
        ];
        NearEvent::log_nft_transfers(data)
    }

    /// The event that records some transfers; the caller logs it.
    pub fn log_nft_transfers(data: Vec<NftTransferData>) -> (r: Self)
        ensures
            is_v1_event(r, Nep171EventKind::NftTransfer(data)),
    {
        NearEvent::nft_transfer(data)
    }

    /// The event that records one burn; the caller logs it.
    pub fn log_nft_burn(
        owner_id: String,
        token_ids: Vec<String>,
        memo: Option<String>,
        authorized_id: Option<String>,
    ) -> (r: Self)
        ensures
            match r {
                NearEvent::Nep171(ev) => ev.version@ == "1.0.0"@ && match ev.event_kind {
                    Nep171EventKind::NftBurn(v) => v@ == seq![
                        NftBurnData { owner_id, authorized_id, token_ids, memo },
                    ],
                    _ => false,
                },
            },
    {
        let data = vec![NftBurnData { owner_id, authorized_id, token_ids, memo }];
        NearEvent::log_nft_burns(data)
    }

    /// The event that records some burns; the caller logs it.
    pub fn log_nft_burns(data: Vec<NftBurnData>) -> (r: Self)
        ensures
            is_v1_event(r, Nep171EventKind::NftBurn(data)),
    {
        NearEvent::nft_burn(data)
    }
}

} // verus!
