//! Error codes of the protocol and the result type used throughout the crate.
use vstd::prelude::*;

verus! {

/// Every failure the protocol can report.
#[derive(Debug, Clone, Copy, PartialEq, Eq, Structural)]
pub enum ErrorCode {
    /// Conversion to u128/u64 failed with an overflow or underflow
    BnConversionError,
    /// Casting Failure
    CastingFailure,
    /// Math Error
    MathError,
    /// Failed Unwrap
    FailedUnwrap,
    /// Required Signature Is Missing
    MissingRequiredSignature,
    /// Multisig account is not authorized
    MultisigAccountNotAuthorized,
    /// Invalid instruction hash
    InvalidInstructionHash,
    /// Multisig transaction already signed
    MultisigAlreadySigned,
    /// Multisig transaction already executed
    MultisigAlreadyExecuted,
    /// Invalid referrer provided
    InvalidReferrer,
    /// Invalid bump provided
    InvalidBump,
    /// Constraint owner check failed
    ConstraintOwner,
    /// Invalid program executable
    InvalidProgramExecutable,
    /// Invalid authority
    InvalidAuthority,
    /// Invalid account provided
    InvalidAccount,
    /// Insufficient funds for operation
    InsufficientFunds,
    /// Trade size cannot be zero
    InvalidTradeSize,
    /// Entry price cannot be zero
    InvalidEntryPrice,
    /// Take profit must be higher than entry price for buy orders
    InvalidTakeProfitBuy,
    /// Take profit must be lower than entry price for sell orders
    InvalidTakeProfitSell,
    /// Stop loss must be lower than entry price for buy orders
    InvalidStopLossBuy,
    /// Stop loss must be higher than entry price for sell orders
    InvalidStopLossSell,
    /// This referrer is not a user
    ReferrerNotAUser,
    /// Invalid oracle account provided
    InvalidOracleAccount,
    /// Oracle price is stale
    StaleOraclePrice,
    /// Invalid oracle price
    InvalidOraclePrice,
    /// Missing time-weighted average price data
    MissingTwap,
    /// Unsupported oracle type
    UnsupportedOracle,
    /// Current price exceeds maximum allowed slippage
    MaxPriceSlippage,
    /// Price validation failed - current price is invalid
    PriceValidationFailed,
    /// Stop loss price is too close to entry price
    StopLossTooClose,
    /// Take profit price is too close to entry price
    TakeProfitTooClose,
    /// Risk-reward ratio is too low
    InsufficientRiskRewardRatio,
    /// Current price is outside acceptable trading range
    PriceOutOfRange,
    /// Oracle price confidence interval is too wide
    OracleConfidenceTooLow,
    /// Price deviation from expected range is too high
    PriceDeviationTooHigh,
    /// Cannot perform the requested action in current state
    CannotPerformAction,
    /// Failed to create account from instruction data
    AccountFromError,
    /// Price update attempted too soon after last update
    PriceUpdateTooSoon,
    /// Price update exceeds maximum allowed change
    PriceUpdateTooHigh,
    /// Anchor framework error occurred
    AnchorError,
    /// Solana program error occurred
    ProgramError,
    /// Circuit breaker is active
    CircuitBreakerTriggered,
    /// Duplicate signer
    DuplicateSigner,
    /// Emergency pause is active
    EmergencyPauseActive,
    /// Invalid delegate
    InvalidDelegate,
    /// Invalid nonce
    InvalidNonce,
    /// Invalid oracle authority
    InvalidOracleAuthority,
    /// Invalid signer index
    InvalidSignerIndex,
    /// Invalid multisig state
    InvalidState,
    /// Oracle confidence interval exceeded
    OracleConfidenceExceeded,
    /// Oracle consensus threshold not met
    OracleConsensusThresholdNotMet,
    /// Oracle deviation too high
    OracleDeviationTooHigh,
    /// Oracle manipulation detected
    OracleManipulationDetected,
    /// Oracle update rate limit exceeded
    OracleUpdateRateLimitExceeded,
    /// Rate limit exceeded
    RateLimitExceeded,
    /// An argument is out of its allowed range
    InvalidArgument,
}

/// Result type used by every fallible operation of the protocol.
pub type TYieldResult<T> = Result<T, ErrorCode>;

/// The message of each error, as a sequence of characters.
pub open spec fn error_message(e: ErrorCode) -> Seq<char> {
    match e {
        ErrorCode::BnConversionError => "Conversion to u128/u64 failed with an overflow or underflow"@,
        ErrorCode::CastingFailure => "Casting Failure"@,
        ErrorCode::MathError => "Math Error"@,
        ErrorCode::FailedUnwrap => "Failed Unwrap"@,
        ErrorCode::MissingRequiredSignature => "Required Signature Is Missing"@,
        ErrorCode::MultisigAccountNotAuthorized => "Multisig account is not authorized"@,
        ErrorCode::InvalidInstructionHash => "Invalid instruction hash"@,
        ErrorCode::MultisigAlreadySigned => "Multisig transaction already signed"@,
        ErrorCode::MultisigAlreadyExecuted => "Multisig transaction already executed"@,
        ErrorCode::InvalidReferrer => "Invalid referrer provided"@,
        ErrorCode::InvalidBump => "Invalid bump provided"@,
        ErrorCode::ConstraintOwner => "Constraint owner check failed"@,
        ErrorCode::InvalidProgramExecutable => "Invalid program executable"@,
        ErrorCode::InvalidAuthority => "Invalid authority"@,
        ErrorCode::InvalidAccount => "Invalid account provided"@,
        ErrorCode::InsufficientFunds => "Insufficient funds for operation"@,
        ErrorCode::InvalidTradeSize => "Trade size cannot be zero"@,
        ErrorCode::InvalidEntryPrice => "Entry price cannot be zero"@,
        ErrorCode::InvalidTakeProfitBuy => "Take profit must be higher than entry price for buy orders"@,
        ErrorCode::InvalidTakeProfitSell => "Take profit must be lower than entry price for sell orders"@,
        ErrorCode::InvalidStopLossBuy => "Stop loss must be lower than entry price for buy orders"@,
        ErrorCode::InvalidStopLossSell => "Stop loss must be higher than entry price for sell orders"@,
        ErrorCode::ReferrerNotAUser => "This referrer is not a user"@,
        ErrorCode::InvalidOracleAccount => "Invalid oracle account provided"@,
        ErrorCode::StaleOraclePrice => "Oracle price is stale"@,
        ErrorCode::InvalidOraclePrice => "Invalid oracle price"@,
        ErrorCode::MissingTwap => "Missing time-weighted average price data"@,
        ErrorCode::UnsupportedOracle => "Unsupported oracle type"@,
        ErrorCode::MaxPriceSlippage => "Current price exceeds maximum allowed slippage"@,
        ErrorCode::PriceValidationFailed => "Price validation failed - current price is invalid"@,
        ErrorCode::StopLossTooClose => "Stop loss price is too close to entry price"@,
        ErrorCode::TakeProfitTooClose => "Take profit price is too close to entry price"@,
        ErrorCode::InsufficientRiskRewardRatio => "Risk-reward ratio is too low"@,
        ErrorCode::PriceOutOfRange => "Current price is outside acceptable trading range"@,
        ErrorCode::OracleConfidenceTooLow => "Oracle price confidence interval is too wide"@,
        ErrorCode::PriceDeviationTooHigh => "Price deviation from expected range is too high"@,
        ErrorCode::CannotPerformAction => "Cannot perform the requested action in current state"@,
        ErrorCode::AccountFromError => "Failed to create account from instruction data"@,
        ErrorCode::PriceUpdateTooSoon => "Price update attempted too soon after last update"@,
        ErrorCode::PriceUpdateTooHigh => "Price update exceeds maximum allowed change"@,
        ErrorCode::AnchorError => "Anchor framework error occurred"@,
        ErrorCode::ProgramError => "Solana program error occurred"@,
        ErrorCode::CircuitBreakerTriggered => "Circuit breaker is active"@,
        ErrorCode::DuplicateSigner => "Duplicate signer"@,
        ErrorCode::EmergencyPauseActive => "Emergency pause is active"@,
        ErrorCode::InvalidDelegate => "Invalid delegate"@,
        ErrorCode::InvalidNonce => "Invalid nonce"@,
        ErrorCode::InvalidOracleAuthority => "Invalid oracle authority"@,
        ErrorCode::InvalidSignerIndex => "Invalid signer index"@,
        ErrorCode::InvalidState => "Invalid multisig state"@,
        ErrorCode::OracleConfidenceExceeded => "Oracle confidence interval exceeded"@,
        ErrorCode::OracleConsensusThresholdNotMet => "Oracle consensus threshold not met"@,
        ErrorCode::OracleDeviationTooHigh => "Oracle deviation too high"@,
        ErrorCode::OracleManipulationDetected => "Oracle manipulation detected"@,
        ErrorCode::OracleUpdateRateLimitExceeded => "Oracle update rate limit exceeded"@,
        ErrorCode::RateLimitExceeded => "Rate limit exceeded"@,
        ErrorCode::InvalidArgument => "An argument is out of its allowed range"@,
    }
}

impl ErrorCode {
    /// The human-readable message attached to the error.
    pub fn message(&self) -> (r: &'static str)
        ensures
            r@ == error_message(*self),
    {
        match self {
            ErrorCode::BnConversionError => "Conversion to u128/u64 failed with an overflow or underflow",
            ErrorCode::CastingFailure => "Casting Failure",
            ErrorCode::MathError => "Math Error",
            ErrorCode::FailedUnwrap => "Failed Unwrap",
            ErrorCode::MissingRequiredSignature => "Required Signature Is Missing",
            ErrorCode::MultisigAccountNotAuthorized => "Multisig account is not authorized",
            ErrorCode::InvalidInstructionHash => "Invalid instruction hash",
            ErrorCode::MultisigAlreadySigned => "Multisig transaction already signed",
            ErrorCode::MultisigAlreadyExecuted => "Multisig transaction already executed",
            ErrorCode::InvalidReferrer => "Invalid referrer provided",
            ErrorCode::InvalidBump => "Invalid bump provided",
            ErrorCode::ConstraintOwner => "Constraint owner check failed",
            ErrorCode::InvalidProgramExecutable => "Invalid program executable",
            ErrorCode::InvalidAuthority => "Invalid authority",
            ErrorCode::InvalidAccount => "Invalid account provided",
            ErrorCode::InsufficientFunds => "Insufficient funds for operation",
            ErrorCode::InvalidTradeSize => "Trade size cannot be zero",
            ErrorCode::InvalidEntryPrice => "Entry price cannot be zero",
            ErrorCode::InvalidTakeProfitBuy => "Take profit must be higher than entry price for buy orders",
            ErrorCode::InvalidTakeProfitSell => "Take profit must be lower than entry price for sell orders",
            ErrorCode::InvalidStopLossBuy => "Stop loss must be lower than entry price for buy orders",
            ErrorCode::InvalidStopLossSell => "Stop loss must be higher than entry price for sell orders",
            ErrorCode::ReferrerNotAUser => "This referrer is not a user",
            ErrorCode::InvalidOracleAccount => "Invalid oracle account provided",
            ErrorCode::StaleOraclePrice => "Oracle price is stale",
            ErrorCode::InvalidOraclePrice => "Invalid oracle price",
            ErrorCode::MissingTwap => "Missing time-weighted average price data",
            ErrorCode::UnsupportedOracle => "Unsupported oracle type",
            ErrorCode::MaxPriceSlippage => "Current price exceeds maximum allowed slippage",
            ErrorCode::PriceValidationFailed => "Price validation failed - current price is invalid",
            ErrorCode::StopLossTooClose => "Stop loss price is too close to entry price",
            ErrorCode::TakeProfitTooClose => "Take profit price is too close to entry price",
            ErrorCode::InsufficientRiskRewardRatio => "Risk-reward ratio is too low",
            ErrorCode::PriceOutOfRange => "Current price is outside acceptable trading range",
            ErrorCode::OracleConfidenceTooLow => "Oracle price confidence interval is too wide",
            ErrorCode::PriceDeviationTooHigh => "Price deviation from expected range is too high",
            ErrorCode::CannotPerformAction => "Cannot perform the requested action in current state",
            ErrorCode::AccountFromError => "Failed to create account from instruction data",
            ErrorCode::PriceUpdateTooSoon => "Price update attempted too soon after last update",
            ErrorCode::PriceUpdateTooHigh => "Price update exceeds maximum allowed change",
            ErrorCode::AnchorError => "Anchor framework error occurred",
            ErrorCode::ProgramError => "Solana program error occurred",
            ErrorCode::CircuitBreakerTriggered => "Circuit breaker is active",
            ErrorCode::DuplicateSigner => "Duplicate signer",
            ErrorCode::EmergencyPauseActive => "Emergency pause is active",
            ErrorCode::InvalidDelegate => "Invalid delegate",
            ErrorCode::InvalidNonce => "Invalid nonce",
            ErrorCode::InvalidOracleAuthority => "Invalid oracle authority",
            ErrorCode::InvalidSignerIndex => "Invalid signer index",
            ErrorCode::InvalidState => "Invalid multisig state",
            ErrorCode::OracleConfidenceExceeded => "Oracle confidence interval exceeded",
            ErrorCode::OracleConsensusThresholdNotMet => "Oracle consensus threshold not met",
            ErrorCode::OracleDeviationTooHigh => "Oracle deviation too high",
            ErrorCode::OracleManipulationDetected => "Oracle manipulation detected",
            ErrorCode::OracleUpdateRateLimitExceeded => "Oracle update rate limit exceeded",
            ErrorCode::RateLimitExceeded => "Rate limit exceeded",
            ErrorCode::InvalidArgument => "An argument is out of its allowed range",
        }
    }
}

/// Shows the shape of a fallible protocol function; always succeeds.
pub fn example_usage() -> (r: TYieldResult<()>)
    ensures
        r == Ok::<(), ErrorCode>(()),
{
    Ok(())
}

/// Shows where a math error would be reported; always succeeds.
pub fn example_math_error_usage() -> (r: TYieldResult<()>)
    ensures
        r == Ok::<(), ErrorCode>(()),
{
    Ok(())
}

/// Shows where an error would be printed; always succeeds.
pub fn example_print_error() -> (r: TYieldResult<()>)
    ensures
        r == Ok::<(), ErrorCode>(()),
{
    Ok(())
}

} // verus!
