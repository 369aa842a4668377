use vstd::prelude::*;

verus! {

/// The marketplace rule that an operation broke.
#[derive(Clone, Copy, Debug, PartialEq, Eq, Structural, Hash)]
pub enum PoolError {
    TokenMintToFailed,
    TokenSetAuthorityFailed,
    TokenTransferFailed,
    PresaleLive,
    PresaleNotLive,
    InvalidMintAccount,
    InvalidTokenAccount,
    InvalidPoolAccount,
    NotWhitelisted,
    MintAmountIsZero,
    AlreadyTrading,
    InvalidPrice,
    InvalidSaleState,
    NotEnoughTokenAmount,
    InvalidBidder,
    InvalidAmount,
    InvalidSeller,
}

/// Why an operation was refused. A refused operation changes nothing.
#[derive(Clone, Copy, Debug, PartialEq, Eq, Structural, Hash)]
pub enum Rejection {
    /// A rule of the marketplace was broken.
    Pool(PoolError),
    /// The data of an account that another program keeps could not be read,
    /// or holds values outside their documented bounds.
    InvalidAccountData,
    /// The caller is not the owner of the pool.
    NotPoolOwner,
    /// The caller is not the bidder whose allowance the client record holds.
    NotClientOwner,
    /// The record that was to be made holds something already.
    AlreadyInitialized,
}

impl PoolError {
    /// What `message` says of each rule.
    pub open spec fn message_of(self) -> Seq<char> {
        match self {
            PoolError::TokenMintToFailed => "Token mint to failed"@,
            PoolError::TokenSetAuthorityFailed => "Token set authority failed"@,
            PoolError::TokenTransferFailed => "Token transfer failed"@,
            PoolError::PresaleLive => "Presale is live"@,
            PoolError::PresaleNotLive => "Presale is not live"@,
            PoolError::InvalidMintAccount => "Invalid mint account"@,
            PoolError::InvalidTokenAccount => "Invalid token account"@,
            PoolError::InvalidPoolAccount => "Invalid pool account"@,
            PoolError::NotWhitelisted => "Not whitelisted"@,
            PoolError::MintAmountIsZero => "Mint amount is zero"@,
            PoolError::AlreadyTrading => "Already on sale"@,
            PoolError::InvalidPrice => "Invalid price"@,
            PoolError::InvalidSaleState => "Invalid sale state"@,
            PoolError::NotEnoughTokenAmount => "Not enough token amount"@,
            PoolError::InvalidBidder => "Invalid bidder"@,
            PoolError::InvalidAmount => "Invalid amount"@,
            PoolError::InvalidSeller => "Invalid seller"@,
        }
    }

    /// The rule in words.
    pub fn message(&self) -> (s: &'static str)
        ensures
            s@ == self.message_of(),
    {
        match self {
            PoolError::TokenMintToFailed => "Token mint to failed",
            PoolError::TokenSetAuthorityFailed => "Token set authority failed",
            PoolError::TokenTransferFailed => "Token transfer failed",
            PoolError::PresaleLive => "Presale is live",
            PoolError::PresaleNotLive => "Presale is not live",
            PoolError::InvalidMintAccount => "Invalid mint account",
            PoolError::InvalidTokenAccount => "Invalid token account",
            PoolError::InvalidPoolAccount => "Invalid pool account",
            PoolError::NotWhitelisted => "Not whitelisted",
            PoolError::MintAmountIsZero => "Mint amount is zero",
            PoolError::AlreadyTrading => "Already on sale",
            PoolError::InvalidPrice => "Invalid price",
            PoolError::InvalidSaleState => "Invalid sale state",
            PoolError::NotEnoughTokenAmount => "Not enough token amount",
            PoolError::InvalidBidder => "Invalid bidder",
            PoolError::InvalidAmount => "Invalid amount",
            PoolError::InvalidSeller => "Invalid seller",
        }
    }
}

impl Rejection {
    /// What `message` says of each refusal.
    pub open spec fn message_of(self) -> Seq<char> {
        match self {
            Rejection::Pool(e) => e.message_of(),
            Rejection::InvalidAccountData => "Invalid account data"@,
            Rejection::NotPoolOwner => "Not the owner of the pool"@,
            Rejection::NotClientOwner => "Not the owner of the client"@,
            Rejection::AlreadyInitialized => "Already initialized"@,
        }
    }

    /// The refusal in words.
    pub fn message(&self) -> (s: &'static str)
        ensures
            s@ == self.message_of(),
    {
        match self {
            Rejection::Pool(e) => e.message(),
            Rejection::InvalidAccountData => "Invalid account data",
            Rejection::NotPoolOwner => "Not the owner of the pool",
            Rejection::NotClientOwner => "Not the owner of the client",
            Rejection::AlreadyInitialized => "Already initialized",
        }
    }
}

} // verus!
