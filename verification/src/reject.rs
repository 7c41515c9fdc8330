//! The rejection-reason tree: the ledger error variants the node reports
//! when it refuses a transaction, together with their views and the
//! constructor-string rendering used in the error envelope.

use vstd::prelude::*;
use vstd::string::StringExecFns;

verus! {

/// The ledger era a Shelley-based validation error belongs to.
#[derive(Debug, Clone, Copy, PartialEq, Eq, Structural)]
pub enum ShelleyBasedEra {
    ShelleyBasedEraShelley,
    ShelleyBasedEraAllegra,
    ShelleyBasedEraMary,
    ShelleyBasedEraAlonzo,
    ShelleyBasedEraBabbage,
    ShelleyBasedEraConway,
}

impl ShelleyBasedEra {
    /// The numeric tag the ledger encodes this era with.
    pub open spec fn spec_tag(self) -> u64 {
        match self {
            ShelleyBasedEra::ShelleyBasedEraShelley => 1,
            ShelleyBasedEra::ShelleyBasedEraAllegra => 2,
            ShelleyBasedEra::ShelleyBasedEraMary => 3,
            ShelleyBasedEra::ShelleyBasedEraAlonzo => 4,
            ShelleyBasedEra::ShelleyBasedEraBabbage => 5,
            ShelleyBasedEra::ShelleyBasedEraConway => 6,
        }
    }

    /// The name the submission API serializes this era as.
    pub open spec fn spec_name(self) -> Seq<char> {
        match self {
            ShelleyBasedEra::ShelleyBasedEraShelley => "ShelleyBasedEraShelley"@,
            ShelleyBasedEra::ShelleyBasedEraAllegra => "ShelleyBasedEraAllegra"@,
            ShelleyBasedEra::ShelleyBasedEraMary => "ShelleyBasedEraMary"@,
            ShelleyBasedEra::ShelleyBasedEraAlonzo => "ShelleyBasedEraAlonzo"@,
            ShelleyBasedEra::ShelleyBasedEraBabbage => "ShelleyBasedEraBabbage"@,
            ShelleyBasedEra::ShelleyBasedEraConway => "ShelleyBasedEraConway"@,
        }
    }

    /// The era name as a string.
    pub fn name(&self) -> (r: String)
        ensures
            r@ == self.spec_name(),
    {
        match self {
            ShelleyBasedEra::ShelleyBasedEraShelley => String::from_str("ShelleyBasedEraShelley"),
            ShelleyBasedEra::ShelleyBasedEraAllegra => String::from_str("ShelleyBasedEraAllegra"),
            ShelleyBasedEra::ShelleyBasedEraMary => String::from_str("ShelleyBasedEraMary"),
            ShelleyBasedEra::ShelleyBasedEraAlonzo => String::from_str("ShelleyBasedEraAlonzo"),
            ShelleyBasedEra::ShelleyBasedEraBabbage => String::from_str("ShelleyBasedEraBabbage"),
            ShelleyBasedEra::ShelleyBasedEraConway => String::from_str("ShelleyBasedEraConway"),
        }
    }
}

/// The role a Plutus script was filling.
#[derive(Debug, Clone, Copy, PartialEq, Eq, Structural)]
pub enum PlutusPurpose {
    Spending,
    Minting,
    Certifying,
    Rewarding,
}

impl PlutusPurpose {
    /// The numeric tag of the purpose.
    pub open spec fn spec_tag(self) -> u64 {
        match self {
            PlutusPurpose::Spending => 0,
            PlutusPurpose::Minting => 1,
            PlutusPurpose::Certifying => 2,
            PlutusPurpose::Rewarding => 3,
        }
    }

    /// The rendering of the purpose.
    pub open spec fn spec_render(self) -> Seq<char> {
        match self {
            PlutusPurpose::Spending => "Spending"@,
            PlutusPurpose::Minting => "Minting"@,
            PlutusPurpose::Certifying => "Certifying"@,
            PlutusPurpose::Rewarding => "Rewarding"@,
        }
    }

    /// Renders the purpose.
    pub fn render(&self) -> (r: String)
        ensures
            r@ == self.spec_render(),
    {
        match self {
            PlutusPurpose::Spending => String::from_str("Spending"),
            PlutusPurpose::Minting => String::from_str("Minting"),
            PlutusPurpose::Certifying => String::from_str("Certifying"),
            PlutusPurpose::Rewarding => String::from_str("Rewarding"),
        }
    }
}

impl View for PlutusPurpose {
    type V = PlutusPurpose;

    open spec fn view(&self) -> PlutusPurpose {
        *self
    }
}

impl DeepView for PlutusPurpose {
    type V = PlutusPurpose;

    open spec fn deep_view(&self) -> PlutusPurpose {
        *self
    }
}

/// The network a value was addressed to.
#[derive(Debug, Clone, Copy, PartialEq, Eq, Structural)]
pub enum Network {
    Mainnet,
    Testnet,
}

impl Network {
    /// The numeric tag of the network.
    pub open spec fn spec_tag(self) -> u64 {
        match self {
            Network::Mainnet => 0,
            Network::Testnet => 1,
        }
    }

    /// The rendering of the network.
    pub open spec fn spec_render(self) -> Seq<char> {
        match self {
            Network::Mainnet => "Mainnet"@,
            Network::Testnet => "Testnet"@,
        }
    }

    /// Renders the network.
    pub fn render(&self) -> (r: String)
        ensures
            r@ == self.spec_render(),
    {
        match self {
            Network::Mainnet => String::from_str("Mainnet"),
            Network::Testnet => String::from_str("Testnet"),
        }
    }
}

/// A script hash, rendered the way the error output spells it.
#[derive(Debug, Clone, PartialEq, Eq)]
pub struct DisplayScriptHash(pub Vec<u8>);

impl View for DisplayScriptHash {
    type V = Seq<u8>;

    open spec fn view(&self) -> Seq<u8> {
        self.0@
    }
}

impl DeepView for DisplayScriptHash {
    type V = Seq<u8>;

    open spec fn deep_view(&self) -> Seq<u8> {
        self.0@
    }
}

/// A key witness: verification key and signature bytes.
#[derive(Debug, Clone, PartialEq, Eq)]
pub struct DisplayVKeyWitness {
    pub vkey: Vec<u8>,
    pub signature: Vec<u8>,
}

/// The view of a key witness.
pub struct VKeyWitnessV {
    pub vkey: Seq<u8>,
    pub signature: Seq<u8>,
}

impl View for DisplayVKeyWitness {
    type V = VKeyWitnessV;

    open spec fn view(&self) -> VKeyWitnessV {
        VKeyWitnessV { vkey: self.vkey@, signature: self.signature@ }
    }
}

/// The hash of the script integrity data of a transaction.
#[derive(Debug, Clone, PartialEq, Eq)]
pub struct ScriptIntegrityHash(pub Vec<u8>);

impl View for ScriptIntegrityHash {
    type V = Seq<u8>;

    open spec fn view(&self) -> Seq<u8> {
        self.0@
    }
}

impl DeepView for ScriptIntegrityHash {
    type V = Seq<u8>;

    open spec fn deep_view(&self) -> Seq<u8> {
        self.0@
    }
}

/// A transaction input: the transaction id it spends and the output index.
#[derive(Debug, Clone, PartialEq, Eq)]
pub struct SerializableTxIn {
    pub tx_id: Vec<u8>,
    pub index: u64,
}

/// The view of a transaction input.
pub struct TxInV {
    pub tx_id: Seq<u8>,
    pub index: u64,
}

impl View for SerializableTxIn {
    type V = TxInV;

    open spec fn view(&self) -> TxInV {
        TxInV { tx_id: self.tx_id@, index: self.index }
    }
}

impl DeepView for SerializableTxIn {
    type V = TxInV;

    open spec fn deep_view(&self) -> TxInV {
        self.view()
    }
}

/// A transaction output, reduced to the address bytes and the coin value.
#[derive(Debug, Clone, PartialEq, Eq)]
pub struct SerializableTxOut {
    pub address: Vec<u8>,
    pub coin: u64,
}

/// The view of a transaction output.
pub struct TxOutV {
    pub address: Seq<u8>,
    pub coin: u64,
}

impl View for SerializableTxOut {
    type V = TxOutV;

    open spec fn view(&self) -> TxOutV {
        TxOutV { address: self.address@, coin: self.coin }
    }
}

impl DeepView for SerializableTxOut {
    type V = TxOutV;

    open spec fn deep_view(&self) -> TxOutV {
        self.view()
    }
}

/// A ledger value; only pure-coin values are carried here, a value with
/// multiassets takes the fallback decoding path.
#[derive(Debug, Clone, Copy, PartialEq, Eq, Structural)]
pub struct DisplayValue {
    pub coin: u64,
}

impl View for DisplayValue {
    type V = DisplayValue;

    open spec fn view(&self) -> DisplayValue {
        *self
    }
}

/// Execution units of a script: memory and steps.
#[derive(Debug, Clone, Copy, PartialEq, Eq, Structural)]
pub struct DisplayExUnits {
    pub mem: u64,
    pub steps: u64,
}

impl View for DisplayExUnits {
    type V = DisplayExUnits;

    open spec fn view(&self) -> DisplayExUnits {
        *self
    }
}

/// The validity window of a transaction, in slots.
#[derive(Debug, Clone, Copy, PartialEq, Eq, Structural)]
pub struct ValidityInterval {
    pub invalid_before: Option<u64>,
    pub invalid_hereafter: Option<u64>,
}

impl View for ValidityInterval {
    type V = ValidityInterval;

    open spec fn view(&self) -> ValidityInterval {
        *self
    }
}

/// A set of UTxO entries.
#[derive(Debug, Clone, PartialEq, Eq)]
pub struct Utxo(pub Vec<(SerializableTxIn, SerializableTxOut)>);

impl View for Utxo {
    type V = Seq<(TxInV, TxOutV)>;

    open spec fn view(&self) -> Seq<(TxInV, TxOutV)> {
        self.0.deep_view()
    }
}

/// A failure of the UTxO rule of the Conway ledger.
#[derive(Debug, PartialEq, Eq)]
pub enum ConwayUtxoPredFailure {
    UtxosFailure(Box<ConwayUtxoPredFailure>),
    BadInputsUTxO(Vec<SerializableTxIn>),
    OutsideValidityIntervalUTxO(ValidityInterval, u64),
    MaxTxSizeUTxO(u64),
    InputSetEmptyUTxO(),
    FeeTooSmallUTxO(u64, u64),
    ValueNotConservedUTxO(DisplayValue, DisplayValue),
    WrongNetwork(Network, Vec<Vec<u8>>),
    WrongNetworkWithdrawal(Network, Vec<Vec<u8>>),
    OutputTooSmallUTxO(Vec<SerializableTxOut>),
    OutputBootAddrAttrsTooBig(Vec<SerializableTxOut>),
    OutputTooBigUTxO(Vec<(u64, u64, SerializableTxOut)>),
    InsufficientCollateral(u64, u64),
    ScriptsNotPaidUTxO(Utxo),
    ExUnitsTooBigUTxO(DisplayExUnits),
    CollateralContainsNonADA(DisplayValue),
    WrongNetworkInTxBody(),
    OutsideForecast(u64),
    TooManyCollateralInputs(u64),
    NoCollateralInputs(),
    IncorrectTotalCollateralField(u64, u64),
    BabbageOutputTooSmallUTxO(Vec<(SerializableTxOut, u64)>),
    BabbageNonDisjointRefInputs(Vec<SerializableTxIn>),
}

/// The view of a UTxO rule failure.
pub enum UtxoFailureV {
    UtxosFailure(Box<UtxoFailureV>),
    BadInputsUTxO(Seq<TxInV>),
    OutsideValidityIntervalUTxO(ValidityInterval, u64),
    MaxTxSizeUTxO(u64),
    InputSetEmptyUTxO,
    FeeTooSmallUTxO(u64, u64),
    ValueNotConservedUTxO(DisplayValue, DisplayValue),
    WrongNetwork(Network, Seq<Seq<u8>>),
    WrongNetworkWithdrawal(Network, Seq<Seq<u8>>),
    OutputTooSmallUTxO(Seq<TxOutV>),
    OutputBootAddrAttrsTooBig(Seq<TxOutV>),
    OutputTooBigUTxO(Seq<(u64, u64, TxOutV)>),
    InsufficientCollateral(u64, u64),
    ScriptsNotPaidUTxO(Seq<(TxInV, TxOutV)>),
    ExUnitsTooBigUTxO(DisplayExUnits),
    CollateralContainsNonADA(DisplayValue),
    WrongNetworkInTxBody,
    OutsideForecast(u64),
    TooManyCollateralInputs(u64),
    NoCollateralInputs,
    IncorrectTotalCollateralField(u64, u64),
    BabbageOutputTooSmallUTxO(Seq<(TxOutV, u64)>),
    BabbageNonDisjointRefInputs(Seq<TxInV>),
}

/// The view of a UTxO rule failure, defined by structural recursion.
pub open spec fn view_utxo_failure(f: &ConwayUtxoPredFailure) -> UtxoFailureV
    decreases f,
{
    match f {
            ConwayUtxoPredFailure::UtxosFailure(e) => UtxoFailureV::UtxosFailure(
                Box::new(view_utxo_failure(&**e)),
            ),
            ConwayUtxoPredFailure::BadInputsUTxO(v) => UtxoFailureV::BadInputsUTxO(v.deep_view()),
            ConwayUtxoPredFailure::OutsideValidityIntervalUTxO(vi, s) =>
                UtxoFailureV::OutsideValidityIntervalUTxO(*vi, *s),
            ConwayUtxoPredFailure::MaxTxSizeUTxO(n) => UtxoFailureV::MaxTxSizeUTxO(*n),
            ConwayUtxoPredFailure::InputSetEmptyUTxO() => UtxoFailureV::InputSetEmptyUTxO,
            ConwayUtxoPredFailure::FeeTooSmallUTxO(a, b) => UtxoFailureV::FeeTooSmallUTxO(*a, *b),
            ConwayUtxoPredFailure::ValueNotConservedUTxO(a, b) =>
                UtxoFailureV::ValueNotConservedUTxO(*a, *b),
            ConwayUtxoPredFailure::WrongNetwork(n, v) => UtxoFailureV::WrongNetwork(
                *n,
                v.deep_view(),
            ),
            ConwayUtxoPredFailure::WrongNetworkWithdrawal(n, v) =>
                UtxoFailureV::WrongNetworkWithdrawal(*n, v.deep_view()),
            ConwayUtxoPredFailure::OutputTooSmallUTxO(v) => UtxoFailureV::OutputTooSmallUTxO(
                v.deep_view(),
            ),
            ConwayUtxoPredFailure::OutputBootAddrAttrsTooBig(v) =>
                UtxoFailureV::OutputBootAddrAttrsTooBig(v.deep_view()),
            ConwayUtxoPredFailure::OutputTooBigUTxO(v) => UtxoFailureV::OutputTooBigUTxO(
                v.deep_view(),
            ),
            ConwayUtxoPredFailure::InsufficientCollateral(a, b) =>
                UtxoFailureV::InsufficientCollateral(*a, *b),
            ConwayUtxoPredFailure::ScriptsNotPaidUTxO(u) => UtxoFailureV::ScriptsNotPaidUTxO(u@),
            ConwayUtxoPredFailure::ExUnitsTooBigUTxO(e) => UtxoFailureV::ExUnitsTooBigUTxO(*e),
            ConwayUtxoPredFailure::CollateralContainsNonADA(v) =>
                UtxoFailureV::CollateralContainsNonADA(*v),
            ConwayUtxoPredFailure::WrongNetworkInTxBody() => UtxoFailureV::WrongNetworkInTxBody,
            ConwayUtxoPredFailure::OutsideForecast(s) => UtxoFailureV::OutsideForecast(*s),
            ConwayUtxoPredFailure::TooManyCollateralInputs(n) =>
                UtxoFailureV::TooManyCollateralInputs(*n),
            ConwayUtxoPredFailure::NoCollateralInputs() => UtxoFailureV::NoCollateralInputs,
            ConwayUtxoPredFailure::IncorrectTotalCollateralField(a, b) =>
                UtxoFailureV::IncorrectTotalCollateralField(*a, *b),
            ConwayUtxoPredFailure::BabbageOutputTooSmallUTxO(v) =>
                UtxoFailureV::BabbageOutputTooSmallUTxO(v.deep_view()),
            ConwayUtxoPredFailure::BabbageNonDisjointRefInputs(v) =>
                UtxoFailureV::BabbageNonDisjointRefInputs(v.deep_view()),
    }
}

impl View for ConwayUtxoPredFailure {
    type V = UtxoFailureV;

    open spec fn view(&self) -> UtxoFailureV {
        view_utxo_failure(self)
    }
}

/// A failure of the witnessing rule of the Conway ledger.
#[derive(Debug, PartialEq, Eq)]
pub enum ConwayUtxoWPredFailure {
    UtxoFailure(ConwayUtxoPredFailure),
    InvalidWitnessesUTXOW(DisplayVKeyWitness),
    MissingVKeyWitnessesUTXOW(DisplayVKeyWitness),
    MissingScriptWitnessesUTXOW(DisplayScriptHash),
    ScriptWitnessNotValidatingUTXOW(DisplayScriptHash),
    MissingTxBodyMetadataHash(Vec<u8>),
    MissingTxMetadata(Vec<u8>),
    ConflictingMetadataHash(Vec<u8>, Vec<u8>),
    InvalidMetadata(),
    ExtraneousScriptWitnessesUTXOW(DisplayScriptHash),
    MissingRedeemers(Vec<(PlutusPurpose, DisplayScriptHash)>),
    MissingRequiredDatums(Vec<Vec<u8>>, Vec<Vec<u8>>),
    NotAllowedSupplementalDatums(Vec<Vec<u8>>, Vec<Vec<u8>>),
    PPViewHashesDontMatch(Option<ScriptIntegrityHash>),
    UnspendableUTxONoDatumHash(Vec<SerializableTxIn>),
    ExtraRedeemers(Vec<PlutusPurpose>),
    MalformedScriptWitnesses(Vec<DisplayScriptHash>),
    MalformedReferenceScripts(Vec<DisplayScriptHash>),
}

/// The view of a witnessing rule failure.
pub enum UtxowFailureV {
    UtxoFailure(UtxoFailureV),
    InvalidWitnessesUTXOW(VKeyWitnessV),
    MissingVKeyWitnessesUTXOW(VKeyWitnessV),
    MissingScriptWitnessesUTXOW(Seq<u8>),
    ScriptWitnessNotValidatingUTXOW(Seq<u8>),
    MissingTxBodyMetadataHash(Seq<u8>),
    MissingTxMetadata(Seq<u8>),
    ConflictingMetadataHash(Seq<u8>, Seq<u8>),
    InvalidMetadata,
    ExtraneousScriptWitnessesUTXOW(Seq<u8>),
    MissingRedeemers(Seq<(PlutusPurpose, Seq<u8>)>),
    MissingRequiredDatums(Seq<Seq<u8>>, Seq<Seq<u8>>),
    NotAllowedSupplementalDatums(Seq<Seq<u8>>, Seq<Seq<u8>>),
    PPViewHashesDontMatch(Option<Seq<u8>>),
    UnspendableUTxONoDatumHash(Seq<TxInV>),
    ExtraRedeemers(Seq<PlutusPurpose>),
    MalformedScriptWitnesses(Seq<Seq<u8>>),
    MalformedReferenceScripts(Seq<Seq<u8>>),
}

impl View for ConwayUtxoWPredFailure {
    type V = UtxowFailureV;

    open spec fn view(&self) -> UtxowFailureV {
        match self {
            ConwayUtxoWPredFailure::UtxoFailure(e) => UtxowFailureV::UtxoFailure(e.view()),
            ConwayUtxoWPredFailure::InvalidWitnessesUTXOW(w) => UtxowFailureV::InvalidWitnessesUTXOW(
                w.view(),
            ),
            ConwayUtxoWPredFailure::MissingVKeyWitnessesUTXOW(w) =>
                UtxowFailureV::MissingVKeyWitnessesUTXOW(w.view()),
            ConwayUtxoWPredFailure::MissingScriptWitnessesUTXOW(h) =>
                UtxowFailureV::MissingScriptWitnessesUTXOW(h.view()),
            ConwayUtxoWPredFailure::ScriptWitnessNotValidatingUTXOW(h) =>
                UtxowFailureV::ScriptWitnessNotValidatingUTXOW(h.view()),
            ConwayUtxoWPredFailure::MissingTxBodyMetadataHash(b) =>
                UtxowFailureV::MissingTxBodyMetadataHash(b@),
            ConwayUtxoWPredFailure::MissingTxMetadata(b) => UtxowFailureV::MissingTxMetadata(b@),
            ConwayUtxoWPredFailure::ConflictingMetadataHash(a, b) =>
                UtxowFailureV::ConflictingMetadataHash(a@, b@),
            ConwayUtxoWPredFailure::InvalidMetadata() => UtxowFailureV::InvalidMetadata,
            ConwayUtxoWPredFailure::ExtraneousScriptWitnessesUTXOW(h) =>
                UtxowFailureV::ExtraneousScriptWitnessesUTXOW(h.view()),
            ConwayUtxoWPredFailure::MissingRedeemers(v) => UtxowFailureV::MissingRedeemers(
                v.deep_view(),
            ),
            ConwayUtxoWPredFailure::MissingRequiredDatums(a, b) =>
                UtxowFailureV::MissingRequiredDatums(a.deep_view(), b.deep_view()),
            ConwayUtxoWPredFailure::NotAllowedSupplementalDatums(a, b) =>
                UtxowFailureV::NotAllowedSupplementalDatums(a.deep_view(), b.deep_view()),
            ConwayUtxoWPredFailure::PPViewHashesDontMatch(o) => UtxowFailureV::PPViewHashesDontMatch(
                o.deep_view(),
            ),
            ConwayUtxoWPredFailure::UnspendableUTxONoDatumHash(v) =>
                UtxowFailureV::UnspendableUTxONoDatumHash(v.deep_view()),
            ConwayUtxoWPredFailure::ExtraRedeemers(v) => UtxowFailureV::ExtraRedeemers(
                v.deep_view(),
            ),
            ConwayUtxoWPredFailure::MalformedScriptWitnesses(v) =>
                UtxowFailureV::MalformedScriptWitnesses(v.deep_view()),
            ConwayUtxoWPredFailure::MalformedReferenceScripts(v) =>
                UtxowFailureV::MalformedReferenceScripts(v.deep_view()),
        }
    }
}

/// A transaction-level failure of the Conway ledger rules.
#[derive(Debug, PartialEq, Eq)]
pub enum ApplyConwayTxPredError {
    UtxowFailure(ConwayUtxoWPredFailure),
    CertsFailure(ConwayUtxoWPredFailure),
    GovFailure(ConwayUtxoWPredFailure),
    WdrlNotDelegatedToDRep(Vec<u8>),
    TreasuryValueMismatch(u64, u64),
    TxRefScriptsSizeTooBig(u64),
    MempoolFailure(String),
}

/// The view of a transaction-level failure.
pub enum PredErrorV {
    UtxowFailure(UtxowFailureV),
    CertsFailure(UtxowFailureV),
    GovFailure(UtxowFailureV),
    WdrlNotDelegatedToDRep(Seq<u8>),
    TreasuryValueMismatch(u64, u64),
    TxRefScriptsSizeTooBig(u64),
    MempoolFailure(Seq<char>),
}

impl View for ApplyConwayTxPredError {
    type V = PredErrorV;

    open spec fn view(&self) -> PredErrorV {
        match self {
            ApplyConwayTxPredError::UtxowFailure(e) => PredErrorV::UtxowFailure(e.view()),
            ApplyConwayTxPredError::CertsFailure(e) => PredErrorV::CertsFailure(e.view()),
            ApplyConwayTxPredError::GovFailure(e) => PredErrorV::GovFailure(e.view()),
            ApplyConwayTxPredError::WdrlNotDelegatedToDRep(h) => PredErrorV::WdrlNotDelegatedToDRep(
                h@,
            ),
            ApplyConwayTxPredError::TreasuryValueMismatch(a, b) => PredErrorV::TreasuryValueMismatch(
                *a,
                *b,
            ),
            ApplyConwayTxPredError::TxRefScriptsSizeTooBig(n) => PredErrorV::TxRefScriptsSizeTooBig(
                *n,
            ),
            ApplyConwayTxPredError::MempoolFailure(s) => PredErrorV::MempoolFailure(s@),
        }
    }
}

impl DeepView for ApplyConwayTxPredError {
    type V = PredErrorV;

    open spec fn deep_view(&self) -> PredErrorV {
        self.view()
    }
}

/// The list of transaction-level failures a rejection carries.
#[derive(Debug, PartialEq, Eq)]
pub struct ApplyTxErr(pub Vec<ApplyConwayTxPredError>);

impl View for ApplyTxErr {
    type V = Seq<PredErrorV>;

    open spec fn view(&self) -> Seq<PredErrorV> {
        self.0.deep_view()
    }
}

/// The decoded rejection reason: a Byron-era error, or a Shelley-based
/// error with its era and failure list.
#[derive(Debug, PartialEq, Eq)]
pub enum TxValidationError {
    ByronTxValidationError { error: ApplyTxErr },
    ShelleyTxValidationError { error: ApplyTxErr, era: ShelleyBasedEra },
}

/// The view of a decoded rejection reason.
pub enum TxValidationErrorV {
    Byron { error: Seq<PredErrorV> },
    Shelley { error: Seq<PredErrorV>, era: ShelleyBasedEra },
}

impl View for TxValidationError {
    type V = TxValidationErrorV;

    open spec fn view(&self) -> TxValidationErrorV {
        match self {
            TxValidationError::ByronTxValidationError { error } => TxValidationErrorV::Byron {
                error: error.view(),
            },
            TxValidationError::ShelleyTxValidationError { error, era } =>
                TxValidationErrorV::Shelley { error: error.view(), era: *era },
        }
    }
}

} // verus!
