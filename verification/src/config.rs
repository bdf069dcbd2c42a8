//! Economic parameters and the fee rules computed from them.
//!
//! A `ConfigManager` is an immutable snapshot of the five tunable parameters.
//! It is built from the rows of the key/value configuration table, each
//! missing key falling back to its documented default, and every fee is a
//! pure function of the snapshot.

use crate::fixed::{lemma_portion_bounds, portion, portion_of, trunc_div, SCALE};
use crate::text::same_text;
use vstd::prelude::*;

verus! {

/// The configuration keys that the economy reads.
#[derive(Clone, Copy, Debug, PartialEq, Eq, Structural)]
pub enum ConfigKey {
    MarketVatRate,
    TransferFeeRate,
    WalletToBankFeeRate,
    WalletToBankThreshold,
    MarketTransactionFee,
}

impl ConfigKey {
    /// The key's name in the configuration table.
    pub open spec fn name(self) -> Seq<char> {
        match self {
            ConfigKey::MarketVatRate => "market_vat_rate"@,
            ConfigKey::TransferFeeRate => "transfer_fee_rate"@,
            ConfigKey::WalletToBankFeeRate => "wallet_to_bank_fee_rate"@,
            ConfigKey::WalletToBankThreshold => "wallet_to_bank_threshold"@,
            ConfigKey::MarketTransactionFee => "market_transaction_fee"@,
        }
    }

    /// The value, in millionths, that stands in for a key the table lacks:
    /// 34 % VAT, 10 % transfer fee, 5 % large wallet-to-bank fee, a threshold
    /// of 10000 and a 2 % market transaction fee.
    pub open spec fn default_value(self) -> int {
        match self {
            ConfigKey::MarketVatRate => 340_000,
            ConfigKey::TransferFeeRate => 100_000,
            ConfigKey::WalletToBankFeeRate => 50_000,
            ConfigKey::WalletToBankThreshold => 10_000_000_000,
            ConfigKey::MarketTransactionFee => 20_000,
        }
    }

    /// The key's name in the configuration table.
    pub fn as_str(&self) -> (s: &'static str)
        ensures
            s@ == self.name(),
    {
        match self {
            ConfigKey::MarketVatRate => "market_vat_rate",
            ConfigKey::TransferFeeRate => "transfer_fee_rate",
            ConfigKey::WalletToBankFeeRate => "wallet_to_bank_fee_rate",
            ConfigKey::WalletToBankThreshold => "wallet_to_bank_threshold",
            ConfigKey::MarketTransactionFee => "market_transaction_fee",
        }
    }

    /// The key's default, in millionths.
    pub fn default_micros(&self) -> (v: i64)
        ensures
            v == self.default_value(),
    {
        match self {
            ConfigKey::MarketVatRate => 340_000,
            ConfigKey::TransferFeeRate => 100_000,
            ConfigKey::WalletToBankFeeRate => 50_000,
            ConfigKey::WalletToBankThreshold => 10_000_000_000,
            ConfigKey::MarketTransactionFee => 20_000,
        }
    }
}

/// One row of the configuration table: a key and its value in millionths.
#[derive(Clone, Debug)]
pub struct ConfigEntry {
    pub key: String,
    pub value: i64,
}

/// The value that the rows give to the key `name`: that of the last row with
/// this key, or nothing where no row has it.
pub open spec fn configured(rows: Seq<ConfigEntry>, name: Seq<char>) -> Option<int>
    decreases rows.len(),
{
    if rows.len() == 0 {
        None
    } else if rows.last().key@ == name {
        Some(rows.last().value as int)
    } else {
        configured(rows.drop_last(), name)
    }
}

/// The value in force for `key`: the configured one, or the key's default.
pub open spec fn setting(rows: Seq<ConfigEntry>, key: ConfigKey) -> int {
    match configured(rows, key.name()) {
        Some(v) => v,
        None => key.default_value(),
    }
}

/// Whether a value in millionths is a rate between 0 and 1.
pub open spec fn is_rate(v: int) -> bool {
    0 <= v <= SCALE
}

/// The first rate key, in the order VAT, transfer fee, wallet-to-bank fee,
/// market transaction fee, whose value in force is not a rate.
pub open spec fn first_bad_rate(rows: Seq<ConfigEntry>) -> Option<ConfigKey> {
    if !is_rate(setting(rows, ConfigKey::MarketVatRate)) {
        Some(ConfigKey::MarketVatRate)
    } else if !is_rate(setting(rows, ConfigKey::TransferFeeRate)) {
        Some(ConfigKey::TransferFeeRate)
    } else if !is_rate(setting(rows, ConfigKey::WalletToBankFeeRate)) {
        Some(ConfigKey::WalletToBankFeeRate)
    } else if !is_rate(setting(rows, ConfigKey::MarketTransactionFee)) {
        Some(ConfigKey::MarketTransactionFee)
    } else {
        None
    }
}

/// Why a set of rows makes no configuration.
#[derive(Clone, Copy, Debug, PartialEq, Eq, Structural)]
pub enum ConfigError {
    /// The value in force for this rate key lies outside 0 to 1.
    RateOutOfRange(ConfigKey),
}

/// The breakdown of a market sale: the gross amount, the transaction fee, the
/// VAT on what the fee leaves, and the net that the seller receives.
#[derive(Clone, Copy, Debug, PartialEq, Eq, Structural)]
pub struct MarketFees {
    pub gross_amount: i64,
    pub transaction_fee: i64,
    pub vat: i64,
    pub net_amount: i64,
}

/// A snapshot of the economic parameters. The four rates are held in
/// millionths and always lie between 0 and 1.
#[derive(Clone, Copy, Debug, PartialEq, Eq)]
pub struct ConfigManager {
    market_vat_rate: i64,
    transfer_fee_rate: i64,
    wallet_to_bank_fee_rate: i64,
    wallet_to_bank_threshold: i64,
    market_transaction_fee: i64,
}

/// The transaction fee on a gross sale amount at the rate `fee_rate`.
pub open spec fn sale_transaction_fee(gross: int, fee_rate: int) -> int {
    portion(gross, fee_rate)
}

/// The VAT on a gross sale amount: the rate `vat_rate` applied to what the
/// transaction fee leaves.
pub open spec fn sale_vat(gross: int, fee_rate: int, vat_rate: int) -> int {
    portion(gross - sale_transaction_fee(gross, fee_rate), vat_rate)
}

/// What a gross sale amount leaves the seller after fee and VAT.
pub open spec fn sale_net(gross: int, fee_rate: int, vat_rate: int) -> int {
    gross - sale_transaction_fee(gross, fee_rate) - sale_vat(gross, fee_rate, vat_rate)
}

impl ConfigManager {
    #[verifier::type_invariant]
    spec fn rates_in_range(&self) -> bool {
        &&& is_rate(self.market_vat_rate as int)
        &&& is_rate(self.transfer_fee_rate as int)
        &&& is_rate(self.wallet_to_bank_fee_rate as int)
        &&& is_rate(self.market_transaction_fee as int)
    }

    /// The VAT rate on market sales, in millionths.
    pub closed spec fn market_vat_rate_value(&self) -> int {
        self.market_vat_rate as int
    }

    /// The general transfer fee rate, in millionths.
    pub closed spec fn transfer_fee_rate_value(&self) -> int {
        self.transfer_fee_rate as int
    }

    /// The fee rate of large wallet-to-bank transfers, in millionths.
    pub closed spec fn wallet_to_bank_fee_rate_value(&self) -> int {
        self.wallet_to_bank_fee_rate as int
    }

    /// The amount from which a wallet-to-bank transfer counts as large.
    pub closed spec fn wallet_to_bank_threshold_value(&self) -> int {
        self.wallet_to_bank_threshold as int
    }

    /// The market transaction fee rate, in millionths.
    pub closed spec fn market_transaction_fee_value(&self) -> int {
        self.market_transaction_fee as int
    }

    /// Every rate of the snapshot lies between 0 and 1.
    pub open spec fn valid(&self) -> bool {
        &&& is_rate(self.market_vat_rate_value())
        &&& is_rate(self.transfer_fee_rate_value())
        &&& is_rate(self.wallet_to_bank_fee_rate_value())
        &&& is_rate(self.market_transaction_fee_value())
    }

    /// The fee on a transfer of `amount` from the store named `from` to the
    /// store named `to`. Wallet to bank at or above the threshold pays the
    /// wallet-to-bank rate; below it, and bank to wallet at any amount, the
    /// general rate; any other pair pays nothing. Fees are rounded toward zero.
    pub open spec fn transfer_fee(&self, from: Seq<char>, to: Seq<char>, amount: int) -> int {
        if from == "wallet"@ && to == "bank"@ {
            if amount >= self.wallet_to_bank_threshold_value() {
                portion(amount, self.wallet_to_bank_fee_rate_value())
            } else {
                portion(amount, self.transfer_fee_rate_value())
            }
        } else if from == "bank"@ && to == "wallet"@ {
            portion(amount, self.transfer_fee_rate_value())
        } else {
            0
        }
    }

    /// The breakdown of a sale of `gross` under this snapshot.
    pub open spec fn market_fees(&self, gross: int) -> (int, int, int) {
        (
            sale_transaction_fee(gross, self.market_transaction_fee_value()),
            sale_vat(gross, self.market_transaction_fee_value(), self.market_vat_rate_value()),
            sale_net(gross, self.market_transaction_fee_value(), self.market_vat_rate_value()),
        )
    }

    /// A snapshot of the given parameters, the rates in millionths; nothing
    /// where a rate lies outside 0 to 1.
    pub fn new(
        market_vat_rate: i64,
        transfer_fee_rate: i64,
        wallet_to_bank_fee_rate: i64,
        wallet_to_bank_threshold: i64,
        market_transaction_fee: i64,
    ) -> (config: Option<ConfigManager>)
        ensures
            config is Some <==> is_rate(market_vat_rate as int) && is_rate(transfer_fee_rate as int)
                && is_rate(wallet_to_bank_fee_rate as int) && is_rate(
                market_transaction_fee as int,
            ),
            config matches Some(c) ==> {
                &&& c.valid()
                &&& c.market_vat_rate_value() == market_vat_rate
                &&& c.transfer_fee_rate_value() == transfer_fee_rate
                &&& c.wallet_to_bank_fee_rate_value() == wallet_to_bank_fee_rate
                &&& c.wallet_to_bank_threshold_value() == wallet_to_bank_threshold
                &&& c.market_transaction_fee_value() == market_transaction_fee
            },
    {
        if rate_ok(market_vat_rate) && rate_ok(transfer_fee_rate) && rate_ok(
            wallet_to_bank_fee_rate,
        ) && rate_ok(market_transaction_fee) {
            Some(
                ConfigManager {
                    market_vat_rate,
                    transfer_fee_rate,
                    wallet_to_bank_fee_rate,
                    wallet_to_bank_threshold,
                    market_transaction_fee,
                },
            )
        } else {
            None
        }
    }

    /// The snapshot that the rows of the configuration table describe. Each
    /// parameter takes the value of the last row with its key, or its default
    /// where no row has the key; the threshold is the whole part of its value.
    /// The rows make no snapshot exactly when a rate in force lies outside 0
    /// to 1, and the error names the first such key.
    pub fn load_from_db(rows: &Vec<ConfigEntry>) -> (loaded: Result<ConfigManager, ConfigError>)
        ensures
            loaded is Ok <==> first_bad_rate(rows@) is None,
            loaded matches Ok(c) ==> {
                &&& c.valid()
                &&& c.market_vat_rate_value() == setting(rows@, ConfigKey::MarketVatRate)
                &&& c.transfer_fee_rate_value() == setting(rows@, ConfigKey::TransferFeeRate)
                &&& c.wallet_to_bank_fee_rate_value() == setting(
                    rows@,
                    ConfigKey::WalletToBankFeeRate,
                )
                &&& c.wallet_to_bank_threshold_value() == trunc_div(
                    setting(rows@, ConfigKey::WalletToBankThreshold),
                    SCALE as int,
                )
                &&& c.market_transaction_fee_value() == setting(
                    rows@,
                    ConfigKey::MarketTransactionFee,
                )
            },
            loaded matches Err(ConfigError::RateOutOfRange(key)) ==> first_bad_rate(rows@) == Some(
                key,
            ),
    {
        let vat = value_in_force(rows, ConfigKey::MarketVatRate);
        let transfer = value_in_force(rows, ConfigKey::TransferFeeRate);
        let wallet_to_bank = value_in_force(rows, ConfigKey::WalletToBankFeeRate);
        let threshold = value_in_force(rows, ConfigKey::WalletToBankThreshold);
        let market = value_in_force(rows, ConfigKey::MarketTransactionFee);
        if !rate_ok(vat) {
            Err(ConfigError::RateOutOfRange(ConfigKey::MarketVatRate))
        } else if !rate_ok(transfer) {
            Err(ConfigError::RateOutOfRange(ConfigKey::TransferFeeRate))
        } else if !rate_ok(wallet_to_bank) {
            Err(ConfigError::RateOutOfRange(ConfigKey::WalletToBankFeeRate))
        } else if !rate_ok(market) {
            Err(ConfigError::RateOutOfRange(ConfigKey::MarketTransactionFee))
        } else {
            Ok(
                ConfigManager {
                    market_vat_rate: vat,
                    transfer_fee_rate: transfer,
                    wallet_to_bank_fee_rate: wallet_to_bank,
                    wallet_to_bank_threshold: threshold / SCALE,
                    market_transaction_fee: market,
                },
            )
        }
    }

    /// The VAT rate on market sales, in millionths.
    pub fn market_vat_rate(&self) -> (rate: i64)
        ensures
            rate == self.market_vat_rate_value(),
            is_rate(rate as int),
    {
        proof {
            use_type_invariant(self);
        }
        self.market_vat_rate
    }

    /// The general transfer fee rate, in millionths.
    pub fn transfer_fee_rate(&self) -> (rate: i64)
        ensures
            rate == self.transfer_fee_rate_value(),
            is_rate(rate as int),
    {
        proof {
            use_type_invariant(self);
        }
        self.transfer_fee_rate
    }

    /// The fee rate of large wallet-to-bank transfers, in millionths.
    pub fn wallet_to_bank_fee_rate(&self) -> (rate: i64)
        ensures
            rate == self.wallet_to_bank_fee_rate_value(),
            is_rate(rate as int),
    {
        proof {
            use_type_invariant(self);
        }
        self.wallet_to_bank_fee_rate
    }

    /// The amount from which a wallet-to-bank transfer counts as large.
    pub fn wallet_to_bank_threshold(&self) -> (threshold: i64)
        ensures
            threshold == self.wallet_to_bank_threshold_value(),
    {
        self.wallet_to_bank_threshold
    }

    /// The market transaction fee rate, in millionths.
    pub fn market_transaction_fee(&self) -> (rate: i64)
        ensures
            rate == self.market_transaction_fee_value(),
            is_rate(rate as int),
    {
        proof {
            use_type_invariant(self);
        }
        self.market_transaction_fee
    }

    /// The fee on a transfer of `amount` between the named stores.
    pub fn calculate_transfer_fee(&self, from: &str, to: &str, amount: i64) -> (fee: i64)
        ensures
            fee == self.transfer_fee(from@, to@, amount as int),
            self.valid(),
    {
        proof {
            use_type_invariant(self);
        }
        let from_wallet = same_text(from, "wallet");
        let from_bank = same_text(from, "bank");
        let to_wallet = same_text(to, "wallet");
        let to_bank = same_text(to, "bank");
        if from_wallet && to_bank {
            if amount >= self.wallet_to_bank_threshold {
                portion_of(amount, self.wallet_to_bank_fee_rate)
            } else {
                portion_of(amount, self.transfer_fee_rate)
            }
        } else if from_bank && to_wallet {
            portion_of(amount, self.transfer_fee_rate)
        } else {
            0
        }
    }

    /// The breakdown of a sale of `gross_amount`: the transaction fee, the VAT
    /// on the rest, and the net, each share rounded toward zero.
    pub fn calculate_market_fees(&self, gross_amount: i64) -> (fees: MarketFees)
        ensures
            fees.gross_amount == gross_amount,
            (fees.transaction_fee as int, fees.vat as int, fees.net_amount as int)
                == self.market_fees(gross_amount as int),
            fees.transaction_fee + fees.vat + fees.net_amount == gross_amount,
            self.valid(),
    {
        proof {
            use_type_invariant(self);
            lemma_market_fees_split(*self, gross_amount as int);
        }
        let transaction_fee = portion_of(gross_amount, self.market_transaction_fee);
        let taxable_amount = gross_amount - transaction_fee;
        let vat = portion_of(taxable_amount, self.market_vat_rate);
        let net_amount = gross_amount - transaction_fee - vat;
        MarketFees { gross_amount, transaction_fee, vat, net_amount }
    }
}

/// Fee, VAT and net add up to the gross amount, whatever the truncation took,
/// and each of the three lies between zero and the gross amount, on its side
/// of zero; so a non-negative sale yields three non-negative parts.
pub proof fn lemma_market_fees_split(config: ConfigManager, gross: int)
    requires
        config.valid(),
    ensures
        ({
            let (fee, vat, net) = config.market_fees(gross);
            &&& fee + vat + net == gross
            &&& gross >= 0 ==> 0 <= fee <= gross && 0 <= vat <= gross && 0 <= net <= gross
            &&& gross <= 0 ==> gross <= fee <= 0 && gross <= vat <= 0 && gross <= net <= 0
        }),
{
    let fee = sale_transaction_fee(gross, config.market_transaction_fee_value());
    lemma_portion_bounds(gross, config.market_transaction_fee_value());
    lemma_portion_bounds(gross - fee, config.market_vat_rate_value());
}

/// A wallet-to-bank transfer of exactly the threshold pays the wallet-to-bank
/// rate, and one of a unit less pays the general rate.
pub proof fn lemma_threshold_selects_rate(config: ConfigManager)
    ensures
        ({
            let t = config.wallet_to_bank_threshold_value();
            &&& config.transfer_fee("wallet"@, "bank"@, t) == portion(
                t,
                config.wallet_to_bank_fee_rate_value(),
            )
            &&& config.transfer_fee("wallet"@, "bank"@, t - 1) == portion(
                t - 1,
                config.transfer_fee_rate_value(),
            )
        }),
{
}

/// A transfer between stores that are not wallet and bank, one each way,
/// pays no fee.
pub proof fn lemma_other_directions_pay_nothing(
    config: ConfigManager,
    from: Seq<char>,
    to: Seq<char>,
    amount: int,
)
    requires
        !(from == "wallet"@ && to == "bank"@),
        !(from == "bank"@ && to == "wallet"@),
    ensures
        config.transfer_fee(from, to, amount) == 0,
{
}

fn rate_ok(v: i64) -> (ok: bool)
    ensures
        ok == is_rate(v as int),
{
    0 <= v && v <= SCALE
}

/// The value in force for `key` among the rows.
fn value_in_force(rows: &Vec<ConfigEntry>, key: ConfigKey) -> (v: i64)
    ensures
        v == setting(rows@, key),
{
    let name = key.as_str();
    let mut found: Option<i64> = None;
    let mut i: usize = 0;
    while i < rows.len()
        invariant
            i <= rows.len(),
            name@ == key.name(),
            match found {
                Some(v) => configured(rows@.take(i as int), key.name()) == Some(v as int),
                None => configured(rows@.take(i as int), key.name()) is None,
            },
        decreases rows.len() - i,
    {
        proof {
            assert(rows@.take(i + 1).drop_last() =~= rows@.take(i as int));
            assert(rows@.take(i + 1).last() == rows@[i as int]);
        }
        if same_text(rows[i].key.as_str(), name) {
            found = Some(rows[i].value);
        }
        i += 1;
    }
    proof {
        assert(rows@.take(rows.len() as int) =~= rows@);
    }
    match found {
        Some(v) => v,
        None => key.default_micros(),
    }
}

} // verus!
