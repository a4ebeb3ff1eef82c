//! Domain value objects that commands carry: currencies and the polymorphic
//! instrument, keyed by their natural identities.

use vstd::prelude::*;

verus! {

/// A currency value object, keyed by its code.
#[derive(Debug, PartialEq, Eq)]
pub struct Currency {
    pub code: String,
    pub precision: u8,
    pub name: String,
}

impl Clone for Currency {
    fn clone(&self) -> (r: Self)
        ensures
            r == *self,
    {
        Currency { code: self.code.clone(), precision: self.precision, name: self.name.clone() }
    }
}

impl Currency {
    pub fn new(code: String, precision: u8, name: String) -> (r: Self)
        ensures
            r.code == code,
            r.precision == precision,
            r.name == name,
    {
        Currency { code, precision, name }
    }
}

/// The identifier an instrument is keyed by.
#[derive(Debug, PartialEq, Eq)]
pub struct InstrumentId {
    pub value: String,
}

impl Clone for InstrumentId {
    fn clone(&self) -> (r: Self)
        ensures
            r == *self,
    {
        InstrumentId { value: self.value.clone() }
    }
}

impl InstrumentId {
    pub fn new(value: String) -> (r: Self)
        ensures
            r.value == value,
    {
        InstrumentId { value }
    }
}

/// The discriminator of the instrument union: exactly eight known variants,
/// each with its own storage namespace.
#[derive(Clone, Copy, Debug, PartialEq, Eq, Structural)]
pub enum InstrumentVariant {
    CryptoFuture,
    CryptoPerpetual,
    CurrencyPair,
    Equity,
    FuturesContract,
    FuturesSpread,
    OptionsContract,
    OptionsSpread,
}

impl InstrumentVariant {
    /// The storage namespace a variant's rows live under. The match is
    /// exhaustive: a new variant without a namespace cannot build.
    pub fn table_name(self) -> (r: &'static str)
        ensures
            self is CryptoFuture ==> r@ == "CRYPTO_FUTURE"@,
            self is CryptoPerpetual ==> r@ == "CRYPTO_PERPETUAL"@,
            self is CurrencyPair ==> r@ == "CURRENCY_PAIR"@,
            self is Equity ==> r@ == "EQUITY"@,
            self is FuturesContract ==> r@ == "FUTURES_CONTRACT"@,
            self is FuturesSpread ==> r@ == "FUTURES_SPREAD"@,
            self is OptionsContract ==> r@ == "OPTIONS_CONTRACT"@,
            self is OptionsSpread ==> r@ == "OPTIONS_SPREAD"@,
    {
        match self {
            InstrumentVariant::CryptoFuture => "CRYPTO_FUTURE",
            InstrumentVariant::CryptoPerpetual => "CRYPTO_PERPETUAL",
            InstrumentVariant::CurrencyPair => "CURRENCY_PAIR",
            InstrumentVariant::Equity => "EQUITY",
            InstrumentVariant::FuturesContract => "FUTURES_CONTRACT",
            InstrumentVariant::FuturesSpread => "FUTURES_SPREAD",
            InstrumentVariant::OptionsContract => "OPTIONS_CONTRACT",
            InstrumentVariant::OptionsSpread => "OPTIONS_SPREAD",
        }
    }
}

/// The polymorphic instrument value: a tagged union over the eight known
/// variants, each keyed by an instrument identifier.
#[derive(Debug, PartialEq, Eq)]
pub enum InstrumentAny {
    CryptoFuture(InstrumentId),
    CryptoPerpetual(InstrumentId),
    CurrencyPair(InstrumentId),
    Equity(InstrumentId),
    FuturesContract(InstrumentId),
    FuturesSpread(InstrumentId),
    OptionsContract(InstrumentId),
    OptionsSpread(InstrumentId),
}

impl Clone for InstrumentAny {
    fn clone(&self) -> (r: Self)
        ensures
            r == *self,
    {
        match self {
            InstrumentAny::CryptoFuture(id) => InstrumentAny::CryptoFuture(id.clone()),
            InstrumentAny::CryptoPerpetual(id) => InstrumentAny::CryptoPerpetual(id.clone()),
            InstrumentAny::CurrencyPair(id) => InstrumentAny::CurrencyPair(id.clone()),
            InstrumentAny::Equity(id) => InstrumentAny::Equity(id.clone()),
            InstrumentAny::FuturesContract(id) => InstrumentAny::FuturesContract(id.clone()),
            InstrumentAny::FuturesSpread(id) => InstrumentAny::FuturesSpread(id.clone()),
            InstrumentAny::OptionsContract(id) => InstrumentAny::OptionsContract(id.clone()),
            InstrumentAny::OptionsSpread(id) => InstrumentAny::OptionsSpread(id.clone()),
        }
    }
}

impl InstrumentAny {
    /// The identifier this instrument is keyed by, as a sequence of characters.
    pub open spec fn id_view(&self) -> Seq<char> {
        match self {
            InstrumentAny::CryptoFuture(id) => id.value@,
            InstrumentAny::CryptoPerpetual(id) => id.value@,
            InstrumentAny::CurrencyPair(id) => id.value@,
            InstrumentAny::Equity(id) => id.value@,
            InstrumentAny::FuturesContract(id) => id.value@,
            InstrumentAny::FuturesSpread(id) => id.value@,
            InstrumentAny::OptionsContract(id) => id.value@,
            InstrumentAny::OptionsSpread(id) => id.value@,
        }
    }

    /// Which of the eight variants this value instantiates.
    pub open spec fn variant_spec(&self) -> InstrumentVariant {
        match self {
            InstrumentAny::CryptoFuture(_) => InstrumentVariant::CryptoFuture,
            InstrumentAny::CryptoPerpetual(_) => InstrumentVariant::CryptoPerpetual,
            InstrumentAny::CurrencyPair(_) => InstrumentVariant::CurrencyPair,
            InstrumentAny::Equity(_) => InstrumentVariant::Equity,
            InstrumentAny::FuturesContract(_) => InstrumentVariant::FuturesContract,
            InstrumentAny::FuturesSpread(_) => InstrumentVariant::FuturesSpread,
            InstrumentAny::OptionsContract(_) => InstrumentVariant::OptionsContract,
            InstrumentAny::OptionsSpread(_) => InstrumentVariant::OptionsSpread,
        }
    }

    pub fn id(&self) -> (r: &InstrumentId)
        ensures
            r.value@ == self.id_view(),
    {
        match self {
            InstrumentAny::CryptoFuture(id) => id,
            InstrumentAny::CryptoPerpetual(id) => id,
            InstrumentAny::CurrencyPair(id) => id,
            InstrumentAny::Equity(id) => id,
            InstrumentAny::FuturesContract(id) => id,
            InstrumentAny::FuturesSpread(id) => id,
            InstrumentAny::OptionsContract(id) => id,
            InstrumentAny::OptionsSpread(id) => id,
        }
    }

    /// Resolve the variant tag; the dispatch of the storage gateway.
    pub fn variant(&self) -> (r: InstrumentVariant)
        ensures
            r == self.variant_spec(),
    {
        match self {
            InstrumentAny::CryptoFuture(_) => InstrumentVariant::CryptoFuture,
            InstrumentAny::CryptoPerpetual(_) => InstrumentVariant::CryptoPerpetual,
            InstrumentAny::CurrencyPair(_) => InstrumentVariant::CurrencyPair,
            InstrumentAny::Equity(_) => InstrumentVariant::Equity,
            InstrumentAny::FuturesContract(_) => InstrumentVariant::FuturesContract,
            InstrumentAny::FuturesSpread(_) => InstrumentVariant::FuturesSpread,
            InstrumentAny::OptionsContract(_) => InstrumentVariant::OptionsContract,
            InstrumentAny::OptionsSpread(_) => InstrumentVariant::OptionsSpread,
        }
    }
}

} // verus!
