use vstd::prelude::*;
use vstd::string::StringExecFns;

verus! {

/// Kind of a recorded marketplace event.
#[derive(Clone, Copy, Debug, PartialEq, Eq, Structural)]
pub enum EventType {
    AuctionDeployed,
    AuctionCreated,
    AuctionRootOwnershipTransferred,
    AuctionActive,
    AuctionDeclined,
    AuctionBidPlaced,
    AuctionBidDeclined,
    AuctionCancelled,
    AuctionComplete,
    DirectBuyDeployed,
    DirectBuyDeclined,
    FactoryDirectBuyOwnershipTransferred,
    DirectBuyStateChanged,
    DirectSellDeployed,
    DirectSellDeclined,
    FactoryDirectSellOwnershipTransferred,
    DirectSellStateChanged,
    NftOwnerChanged,
    NftManagerChanged,
    CollectionOwnershipTransferred,
    NftCreated,
    NftBurned,
}

impl EventType {
    /// The numeric code of the variant: its position in the declaration, from 0.
    pub open spec fn code(self) -> int {
        match self {
            EventType::AuctionDeployed => 0,
            EventType::AuctionCreated => 1,
            EventType::AuctionRootOwnershipTransferred => 2,
            EventType::AuctionActive => 3,
            EventType::AuctionDeclined => 4,
            EventType::AuctionBidPlaced => 5,
            EventType::AuctionBidDeclined => 6,
            EventType::AuctionCancelled => 7,
            EventType::AuctionComplete => 8,
            EventType::DirectBuyDeployed => 9,
            EventType::DirectBuyDeclined => 10,
            EventType::FactoryDirectBuyOwnershipTransferred => 11,
            EventType::DirectBuyStateChanged => 12,
            EventType::DirectSellDeployed => 13,
            EventType::DirectSellDeclined => 14,
            EventType::FactoryDirectSellOwnershipTransferred => 15,
            EventType::DirectSellStateChanged => 16,
            EventType::NftOwnerChanged => 17,
            EventType::NftManagerChanged => 18,
            EventType::CollectionOwnershipTransferred => 19,
            EventType::NftCreated => 20,
            EventType::NftBurned => 21,
        }
    }

    /// The textual name of the variant (snake case), as it appears in requests, responses and SQL.
    pub open spec fn name_of(self) -> Seq<char> {
        match self {
            EventType::AuctionDeployed => "auction_deployed"@,
            EventType::AuctionCreated => "auction_created"@,
            EventType::AuctionRootOwnershipTransferred => "auction_root_ownership_transferred"@,
            EventType::AuctionActive => "auction_active"@,
            EventType::AuctionDeclined => "auction_declined"@,
            EventType::AuctionBidPlaced => "auction_bid_placed"@,
            EventType::AuctionBidDeclined => "auction_bid_declined"@,
            EventType::AuctionCancelled => "auction_cancelled"@,
            EventType::AuctionComplete => "auction_complete"@,
            EventType::DirectBuyDeployed => "direct_buy_deployed"@,
            EventType::DirectBuyDeclined => "direct_buy_declined"@,
            EventType::FactoryDirectBuyOwnershipTransferred => "factory_direct_buy_ownership_transferred"@,
            EventType::DirectBuyStateChanged => "direct_buy_state_changed"@,
            EventType::DirectSellDeployed => "direct_sell_deployed"@,
            EventType::DirectSellDeclined => "direct_sell_declined"@,
            EventType::FactoryDirectSellOwnershipTransferred => "factory_direct_sell_ownership_transferred"@,
            EventType::DirectSellStateChanged => "direct_sell_state_changed"@,
            EventType::NftOwnerChanged => "nft_owner_changed"@,
            EventType::NftManagerChanged => "nft_manager_changed"@,
            EventType::CollectionOwnershipTransferred => "collection_ownership_transferred"@,
            EventType::NftCreated => "nft_created"@,
            EventType::NftBurned => "nft_burned"@,
        }
    }

    /// The textual name of the variant.
    pub fn name(&self) -> (res: &'static str)
        ensures
            res@ == self.name_of(),
    {
        match self {
            EventType::AuctionDeployed => "auction_deployed",
            EventType::AuctionCreated => "auction_created",
            EventType::AuctionRootOwnershipTransferred => "auction_root_ownership_transferred",
            EventType::AuctionActive => "auction_active",
            EventType::AuctionDeclined => "auction_declined",
            EventType::AuctionBidPlaced => "auction_bid_placed",
            EventType::AuctionBidDeclined => "auction_bid_declined",
            EventType::AuctionCancelled => "auction_cancelled",
            EventType::AuctionComplete => "auction_complete",
            EventType::DirectBuyDeployed => "direct_buy_deployed",
            EventType::DirectBuyDeclined => "direct_buy_declined",
            EventType::FactoryDirectBuyOwnershipTransferred => "factory_direct_buy_ownership_transferred",
            EventType::DirectBuyStateChanged => "direct_buy_state_changed",
            EventType::DirectSellDeployed => "direct_sell_deployed",
            EventType::DirectSellDeclined => "direct_sell_declined",
            EventType::FactoryDirectSellOwnershipTransferred => "factory_direct_sell_ownership_transferred",
            EventType::DirectSellStateChanged => "direct_sell_state_changed",
            EventType::NftOwnerChanged => "nft_owner_changed",
            EventType::NftManagerChanged => "nft_manager_changed",
            EventType::CollectionOwnershipTransferred => "collection_ownership_transferred",
            EventType::NftCreated => "nft_created",
            EventType::NftBurned => "nft_burned",
        }
    }

    /// Decodes a stored numeric code, one of `0..=21` (the codes that name a variant).
    pub fn from_code(state: i16) -> (res: EventType)
        requires
            0 <= state <= 21,
        ensures
            event_type_of_code(state as int) == Some(res),
            res.code() == state,
    {
        match state {
            0 => EventType::AuctionDeployed,
            1 => EventType::AuctionCreated,
            2 => EventType::AuctionRootOwnershipTransferred,
            3 => EventType::AuctionActive,
            4 => EventType::AuctionDeclined,
            5 => EventType::AuctionBidPlaced,
            6 => EventType::AuctionBidDeclined,
            7 => EventType::AuctionCancelled,
            8 => EventType::AuctionComplete,
            9 => EventType::DirectBuyDeployed,
            10 => EventType::DirectBuyDeclined,
            11 => EventType::FactoryDirectBuyOwnershipTransferred,
            12 => EventType::DirectBuyStateChanged,
            13 => EventType::DirectSellDeployed,
            14 => EventType::DirectSellDeclined,
            15 => EventType::FactoryDirectSellOwnershipTransferred,
            16 => EventType::DirectSellStateChanged,
            17 => EventType::NftOwnerChanged,
            18 => EventType::NftManagerChanged,
            19 => EventType::CollectionOwnershipTransferred,
            20 => EventType::NftCreated,
            _ => EventType::NftBurned,
            
        }
    }
}

/// The variant that a stored numeric code stands for, if any.
pub open spec fn event_type_of_code(c: int) -> Option<EventType> {
    if c == 0 {
        Some(EventType::AuctionDeployed)
    } else if c == 1 {
        Some(EventType::AuctionCreated)
    } else if c == 2 {
        Some(EventType::AuctionRootOwnershipTransferred)
    } else if c == 3 {
        Some(EventType::AuctionActive)
    } else if c == 4 {
        Some(EventType::AuctionDeclined)
    } else if c == 5 {
        Some(EventType::AuctionBidPlaced)
    } else if c == 6 {
        Some(EventType::AuctionBidDeclined)
    } else if c == 7 {
        Some(EventType::AuctionCancelled)
    } else if c == 8 {
        Some(EventType::AuctionComplete)
    } else if c == 9 {
        Some(EventType::DirectBuyDeployed)
    } else if c == 10 {
        Some(EventType::DirectBuyDeclined)
    } else if c == 11 {
        Some(EventType::FactoryDirectBuyOwnershipTransferred)
    } else if c == 12 {
        Some(EventType::DirectBuyStateChanged)
    } else if c == 13 {
        Some(EventType::DirectSellDeployed)
    } else if c == 14 {
        Some(EventType::DirectSellDeclined)
    } else if c == 15 {
        Some(EventType::FactoryDirectSellOwnershipTransferred)
    } else if c == 16 {
        Some(EventType::DirectSellStateChanged)
    } else if c == 17 {
        Some(EventType::NftOwnerChanged)
    } else if c == 18 {
        Some(EventType::NftManagerChanged)
    } else if c == 19 {
        Some(EventType::CollectionOwnershipTransferred)
    } else if c == 20 {
        Some(EventType::NftCreated)
    } else if c == 21 {
        Some(EventType::NftBurned)
    } else {
        None
    }
}

/// Every variant with a code in `0..=21` is decoded back from its code, and decoding
/// a code gives a variant with that very code.
pub proof fn lemma_event_type_code_roundtrip(t: EventType, c: int)
    ensures
        0 <= t.code() <= 21 ==> event_type_of_code(t.code()) == Some(t),
        event_type_of_code(c) matches Some(u) ==> u.code() == c,
        event_type_of_code(c) is Some <==> 0 <= c <= 21,
{
}

/// Kind of contract an event or a search hit belongs to.
#[derive(Clone, Copy, Debug, PartialEq, Eq, Structural)]
pub enum EventCategory {
    Auction,
    DirectBuy,
    DirectSell,
    Nft,
    Collection,
}

impl EventCategory {
    /// The numeric code of the variant: its position in the declaration, from 0.
    pub open spec fn code(self) -> int {
        match self {
            EventCategory::Auction => 0,
            EventCategory::DirectBuy => 1,
            EventCategory::DirectSell => 2,
            EventCategory::Nft => 3,
            EventCategory::Collection => 4,
        }
    }

    /// The textual name of the variant (snake case), as it appears in requests, responses and SQL.
    pub open spec fn name_of(self) -> Seq<char> {
        match self {
            EventCategory::Auction => "auction"@,
            EventCategory::DirectBuy => "direct_buy"@,
            EventCategory::DirectSell => "direct_sell"@,
            EventCategory::Nft => "nft"@,
            EventCategory::Collection => "collection"@,
        }
    }

    /// The textual name of the variant.
    pub fn name(&self) -> (res: &'static str)
        ensures
            res@ == self.name_of(),
    {
        match self {
            EventCategory::Auction => "auction",
            EventCategory::DirectBuy => "direct_buy",
            EventCategory::DirectSell => "direct_sell",
            EventCategory::Nft => "nft",
            EventCategory::Collection => "collection",
        }
    }
}

/// Lifecycle state of an auction.
#[derive(Clone, Copy, Debug, PartialEq, Eq, Structural)]
pub enum AuctionStatus {
    Active,
    Cancelled,
    Completed,
    Expired,
}

impl AuctionStatus {
    /// The numeric code of the variant: its position in the declaration, from 0.
    pub open spec fn code(self) -> int {
        match self {
            AuctionStatus::Active => 0,
            AuctionStatus::Cancelled => 1,
            AuctionStatus::Completed => 2,
            AuctionStatus::Expired => 3,
        }
    }

    /// The textual name of the variant (snake case), as it appears in requests, responses and SQL.
    pub open spec fn name_of(self) -> Seq<char> {
        match self {
            AuctionStatus::Active => "active"@,
            AuctionStatus::Cancelled => "cancelled"@,
            AuctionStatus::Completed => "completed"@,
            AuctionStatus::Expired => "expired"@,
        }
    }

    /// The textual name of the variant.
    pub fn name(&self) -> (res: &'static str)
        ensures
            res@ == self.name_of(),
    {
        match self {
            AuctionStatus::Active => "active",
            AuctionStatus::Cancelled => "cancelled",
            AuctionStatus::Completed => "completed",
            AuctionStatus::Expired => "expired",
        }
    }

    /// Decodes a stored numeric code, one of `0..=2` (the codes that name a variant).
    pub fn from_code(state: i16) -> (res: AuctionStatus)
        requires
            0 <= state <= 2,
        ensures
            auction_status_of_code(state as int) == Some(res),
            res.code() == state,
    {
        match state {
            0 => AuctionStatus::Active,
            1 => AuctionStatus::Cancelled,
            _ => AuctionStatus::Completed,
            
        }
    }
}

/// The variant that a stored numeric code stands for, if any.
pub open spec fn auction_status_of_code(c: int) -> Option<AuctionStatus> {
    if c == 0 {
        Some(AuctionStatus::Active)
    } else if c == 1 {
        Some(AuctionStatus::Cancelled)
    } else if c == 2 {
        Some(AuctionStatus::Completed)
    } else {
        None
    }
}

/// Every variant with a code in `0..=2` is decoded back from its code, and decoding
/// a code gives a variant with that very code.
pub proof fn lemma_auction_status_code_roundtrip(t: AuctionStatus, c: int)
    ensures
        0 <= t.code() <= 2 ==> auction_status_of_code(t.code()) == Some(t),
        auction_status_of_code(c) matches Some(u) ==> u.code() == c,
        auction_status_of_code(c) is Some <==> 0 <= c <= 2,
{
}

impl EventCategory {
    /// The category with the given textual name, if any.
    pub fn from_name(name: &String) -> (res: Option<EventCategory>)
        ensures
            match res {
                Some(c) => c.name_of() == name@,
                None => forall|c: EventCategory| #[trigger] c.name_of() != name@,
            },
    {
        proof {
            reveal_strlit("auction");
            reveal_strlit("direct_buy");
            reveal_strlit("direct_sell");
            reveal_strlit("nft");
            reveal_strlit("collection");
        }
        if *name == String::from_str("auction") {
            Some(EventCategory::Auction)
        } else if *name == String::from_str("direct_buy") {
            Some(EventCategory::DirectBuy)
        } else if *name == String::from_str("direct_sell") {
            Some(EventCategory::DirectSell)
        } else if *name == String::from_str("nft") {
            Some(EventCategory::Nft)
        } else if *name == String::from_str("collection") {
            Some(EventCategory::Collection)
        } else {
            proof {
                assert forall|c: EventCategory| #[trigger] c.name_of() != name@ by {
                    match c {
                        EventCategory::Auction => {},
                        EventCategory::DirectBuy => {},
                        EventCategory::DirectSell => {},
                        EventCategory::Nft => {},
                        EventCategory::Collection => {},
                    }
                }
            }
            None
        }
    }
}

impl Default for AuctionStatus {
    fn default() -> (res: Self)
        ensures
            res == AuctionStatus::Active,
    {
        AuctionStatus::Active
    }
}

/// Lifecycle state of a fixed-price sale offer.
#[derive(Clone, Copy, Debug, PartialEq, Eq, Structural)]
pub enum DirectSellState {
    Create,
    AwaitNft,
    Active,
    Filled,
    Cancelled,
    Expired,
}

impl DirectSellState {
    /// The numeric code of the variant: its position in the declaration, from 0.
    pub open spec fn code(self) -> int {
        match self {
            DirectSellState::Create => 0,
            DirectSellState::AwaitNft => 1,
            DirectSellState::Active => 2,
            DirectSellState::Filled => 3,
            DirectSellState::Cancelled => 4,
            DirectSellState::Expired => 5,
        }
    }

    /// The textual name of the variant (snake case), as it appears in requests, responses and SQL.
    pub open spec fn name_of(self) -> Seq<char> {
        match self {
            DirectSellState::Create => "create"@,
            DirectSellState::AwaitNft => "await_nft"@,
            DirectSellState::Active => "active"@,
            DirectSellState::Filled => "filled"@,
            DirectSellState::Cancelled => "cancelled"@,
            DirectSellState::Expired => "expired"@,
        }
    }

    /// The textual name of the variant.
    pub fn name(&self) -> (res: &'static str)
        ensures
            res@ == self.name_of(),
    {
        match self {
            DirectSellState::Create => "create",
            DirectSellState::AwaitNft => "await_nft",
            DirectSellState::Active => "active",
            DirectSellState::Filled => "filled",
            DirectSellState::Cancelled => "cancelled",
            DirectSellState::Expired => "expired",
        }
    }

    /// Decodes a stored numeric code, one of `0..=5` (the codes that name a variant).
    pub fn from_code(state: i16) -> (res: DirectSellState)
        requires
            0 <= state <= 5,
        ensures
            direct_sell_state_of_code(state as int) == Some(res),
            res.code() == state,
    {
        match state {
            0 => DirectSellState::Create,
            1 => DirectSellState::AwaitNft,
            2 => DirectSellState::Active,
            3 => DirectSellState::Filled,
            4 => DirectSellState::Cancelled,
            _ => DirectSellState::Expired,
            
        }
    }
}

/// The variant that a stored numeric code stands for, if any.
pub open spec fn direct_sell_state_of_code(c: int) -> Option<DirectSellState> {
    if c == 0 {
        Some(DirectSellState::Create)
    } else if c == 1 {
        Some(DirectSellState::AwaitNft)
    } else if c == 2 {
        Some(DirectSellState::Active)
    } else if c == 3 {
        Some(DirectSellState::Filled)
    } else if c == 4 {
        Some(DirectSellState::Cancelled)
    } else if c == 5 {
        Some(DirectSellState::Expired)
    } else {
        None
    }
}

/// Every variant with a code in `0..=5` is decoded back from its code, and decoding
/// a code gives a variant with that very code.
pub proof fn lemma_direct_sell_state_code_roundtrip(t: DirectSellState, c: int)
    ensures
        0 <= t.code() <= 5 ==> direct_sell_state_of_code(t.code()) == Some(t),
        direct_sell_state_of_code(c) matches Some(u) ==> u.code() == c,
        direct_sell_state_of_code(c) is Some <==> 0 <= c <= 5,
{
}

impl Default for DirectSellState {
    fn default() -> (res: Self)
        ensures
            res == DirectSellState::Create,
    {
        DirectSellState::Create
    }
}

/// Lifecycle state of a purchase offer.
#[derive(Clone, Copy, Debug, PartialEq, Eq, Structural)]
pub enum DirectBuyState {
    Create,
    AwaitTokens,
    Active,
    Filled,
    Cancelled,
    Expired,
}

impl DirectBuyState {
    /// The numeric code of the variant: its position in the declaration, from 0.
    pub open spec fn code(self) -> int {
        match self {
            DirectBuyState::Create => 0,
            DirectBuyState::AwaitTokens => 1,
            DirectBuyState::Active => 2,
            DirectBuyState::Filled => 3,
            DirectBuyState::Cancelled => 4,
            DirectBuyState::Expired => 5,
        }
    }

    /// The textual name of the variant (snake case), as it appears in requests, responses and SQL.
    pub open spec fn name_of(self) -> Seq<char> {
        match self {
            DirectBuyState::Create => "create"@,
            DirectBuyState::AwaitTokens => "await_tokens"@,
            DirectBuyState::Active => "active"@,
            DirectBuyState::Filled => "filled"@,
            DirectBuyState::Cancelled => "cancelled"@,
            DirectBuyState::Expired => "expired"@,
        }
    }

    /// The textual name of the variant.
    pub fn name(&self) -> (res: &'static str)
        ensures
            res@ == self.name_of(),
    {
        match self {
            DirectBuyState::Create => "create",
            DirectBuyState::AwaitTokens => "await_tokens",
            DirectBuyState::Active => "active",
            DirectBuyState::Filled => "filled",
            DirectBuyState::Cancelled => "cancelled",
            DirectBuyState::Expired => "expired",
        }
    }

    /// Decodes a stored numeric code, one of `0..=5` (the codes that name a variant).
    pub fn from_code(state: i16) -> (res: DirectBuyState)
        requires
            0 <= state <= 5,
        ensures
            direct_buy_state_of_code(state as int) == Some(res),
            res.code() == state,
    {
        match state {
            0 => DirectBuyState::Create,
            1 => DirectBuyState::AwaitTokens,
            2 => DirectBuyState::Active,
            3 => DirectBuyState::Filled,
            4 => DirectBuyState::Cancelled,
            _ => DirectBuyState::Expired,
            
        }
    }
}

/// The variant that a stored numeric code stands for, if any.
pub open spec fn direct_buy_state_of_code(c: int) -> Option<DirectBuyState> {
    if c == 0 {
        Some(DirectBuyState::Create)
    } else if c == 1 {
        Some(DirectBuyState::AwaitTokens)
    } else if c == 2 {
        Some(DirectBuyState::Active)
    } else if c == 3 {
        Some(DirectBuyState::Filled)
    } else if c == 4 {
        Some(DirectBuyState::Cancelled)
    } else if c == 5 {
        Some(DirectBuyState::Expired)
    } else {
        None
    }
}

/// Every variant with a code in `0..=5` is decoded back from its code, and decoding
/// a code gives a variant with that very code.
pub proof fn lemma_direct_buy_state_code_roundtrip(t: DirectBuyState, c: int)
    ensures
        0 <= t.code() <= 5 ==> direct_buy_state_of_code(t.code()) == Some(t),
        direct_buy_state_of_code(c) matches Some(u) ==> u.code() == c,
        direct_buy_state_of_code(c) is Some <==> 0 <= c <= 5,
{
}

impl Default for DirectBuyState {
    fn default() -> (res: Self)
        ensures
            res == DirectBuyState::Create,
    {
        DirectBuyState::Create
    }
}

/// Kind of offer a price record comes from.
#[derive(Clone, Copy, Debug, PartialEq, Eq, Structural)]
pub enum NftPriceSource {
    AuctionBid,
    DirectBuy,
    DirectSell,
}

impl NftPriceSource {
    /// The numeric code of the variant: its position in the declaration, from 0.
    pub open spec fn code(self) -> int {
        match self {
            NftPriceSource::AuctionBid => 0,
            NftPriceSource::DirectBuy => 1,
            NftPriceSource::DirectSell => 2,
        }
    }

    /// The textual name of the variant (snake case), as it appears in requests, responses and SQL.
    pub open spec fn name_of(self) -> Seq<char> {
        match self {
            NftPriceSource::AuctionBid => "auction_bid"@,
            NftPriceSource::DirectBuy => "direct_buy"@,
            NftPriceSource::DirectSell => "direct_sell"@,
        }
    }

    /// The textual name of the variant.
    pub fn name(&self) -> (res: &'static str)
        ensures
            res@ == self.name_of(),
    {
        match self {
            NftPriceSource::AuctionBid => "auction_bid",
            NftPriceSource::DirectBuy => "direct_buy",
            NftPriceSource::DirectSell => "direct_sell",
        }
    }

    /// Decodes a stored numeric code, one of `0..=2` (the codes that name a variant).
    pub fn from_code(state: i16) -> (res: NftPriceSource)
        requires
            0 <= state <= 2,
        ensures
            nft_price_source_of_code(state as int) == Some(res),
            res.code() == state,
    {
        match state {
            0 => NftPriceSource::AuctionBid,
            1 => NftPriceSource::DirectBuy,
            _ => NftPriceSource::DirectSell,
            
        }
    }
}

/// The variant that a stored numeric code stands for, if any.
pub open spec fn nft_price_source_of_code(c: int) -> Option<NftPriceSource> {
    if c == 0 {
        Some(NftPriceSource::AuctionBid)
    } else if c == 1 {
        Some(NftPriceSource::DirectBuy)
    } else if c == 2 {
        Some(NftPriceSource::DirectSell)
    } else {
        None
    }
}

/// Every variant with a code in `0..=2` is decoded back from its code, and decoding
/// a code gives a variant with that very code.
pub proof fn lemma_nft_price_source_code_roundtrip(t: NftPriceSource, c: int)
    ensures
        0 <= t.code() <= 2 ==> nft_price_source_of_code(t.code()) == Some(t),
        nft_price_source_of_code(c) matches Some(u) ==> u.code() == c,
        nft_price_source_of_code(c) is Some <==> 0 <= c <= 2,
{
}

} // verus!
