use vstd::prelude::*;

verus! {

/// Why an operation was refused. A refused operation changes nothing.
#[derive(Clone, Copy, Debug, PartialEq, Eq, Structural)]
pub enum OridionError {
    /// A planet name is longer than `MAX_PLANET_TITLE_LENGTH` bytes.
    PlanetNameTooLong,
    /// A planet that still holds deposits cannot be deleted.
    PlanetDeleteHasFundsError,
    /// A hop must leave the planet it starts from.
    HopErrorToAndFromAreSame,
    /// The stars of one split must have pairwise different identifiers.
    HopErrorStarsMustBeUnique,
    /// The planet does not hold more than the deposit that is to be paid out.
    PlanetNotEnoughFundsError,
    /// The shares recorded on the stars do not add up to the deposit.
    StarHopCalculationError,
    /// The operator is not the manager, or not the one recorded on a star.
    AuthorityMismatch,
    /// The account that is to be paid is not the deposit's destination.
    DestinationMismatch,
    /// An account that is to be created already holds a record.
    AccountAlreadyInUse,
    /// An account that is to be used holds no record.
    AccountNotInitialized,
    /// A balance or a counter would leave the range of its type.
    ArithmeticOverflow,
    /// No program address exists for the given seeds.
    ProgramAddressNotFound,
}

} // verus!
