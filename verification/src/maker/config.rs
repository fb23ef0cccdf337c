//! The configuration of a maker.

use crate::error::WalletFault;
use crate::protocol::common_messages::{ProtocolVersion, RateBits};
use crate::settings::{
    are_items, decimal, decimal_text, is_key, is_one_line, is_value, item_models, item_settings,
    law_written_settings_are_read_back, lemma_decimal_is_value, lemma_decimal_reads_back, lookup,
    number_at, number_or, parse_settings, setting_item, setting_models, settings, settings_text,
    value_of, write_settings, ItemModel, SettingItem,
};
use vstd::prelude::*;

verus! {

/// Least lock time of a fidelity bond in blocks; a block takes about ten
/// minutes.
pub const MIN_FIDELITY_TIMELOCK: u32 = 12_960;

/// Greatest lock time of a fidelity bond in blocks.
pub const MAX_FIDELITY_TIMELOCK: u32 = 25_920;

/// Smallest swap amount in satoshis.
pub const MIN_SWAP_AMOUNT: u64 = 10_000;

/// The bits of the rate one tenth.
pub const DEFAULT_FEE_PCT: u64 = 0x3fb9_9999_9999_999a;

/// The number of a key, or a default.
pub open spec fn number_or_default(
    fields: Seq<(Seq<char>, Seq<char>)>,
    key: Seq<char>,
    max: int,
    default: int,
) -> int {
    match number_at(fields, key, max) {
        Some(n) => n,
        None => default,
    }
}

/// The text of a key, or nothing.
pub open spec fn text_or_nothing(fields: Seq<(Seq<char>, Seq<char>)>, key: Seq<char>) -> Seq<
    char,
> {
    match value_of(fields, key) {
        Some(text) => text,
        None => seq![],
    }
}

/// The port of a key, or a default.
pub fn port_or(fields: &Vec<(String, String)>, key: &str, default: u16) -> (r: u16)
    ensures
        r == number_or_default(setting_models(fields@), key@, u16::MAX as int, default as int),
{
    number_or(fields, key, u16::MAX as u64, default as u64) as u16
}

/// The number of blocks or confirmations of a key, or a default.
fn count_or(fields: &Vec<(String, String)>, key: &str, default: u32) -> (r: u32)
    ensures
        r == number_or_default(setting_models(fields@), key@, u32::MAX as int, default as int),
{
    number_or(fields, key, u32::MAX as u64, default as u64) as u32
}

/// The amount of a key, or a default.
fn amount_or(fields: &Vec<(String, String)>, key: &str, default: u64) -> (r: u64)
    ensures
        r == number_or_default(setting_models(fields@), key@, u64::MAX as int, default as int),
{
    number_or(fields, key, u64::MAX, default)
}

/// The text of a key, or nothing.
fn text_or(fields: &Vec<(String, String)>, key: &str) -> (r: String)
    ensures
        r@ == text_or_nothing(setting_models(fields@), key@),
{
    match lookup(fields, key) {
        Some(text) => text.clone(),
        None => {
            let r = String::new();
            assert(r@ =~= seq![]);
            r
        },
    }
}

/// A rate that was given, or a default.
fn rate_or(rate: Option<RateBits>, default: RateBits) -> (r: RateBits)
    ensures
        r == if rate is Some {
            rate->0
        } else {
            default
        },
{
    match rate {
        Some(given) => given,
        None => default,
    }
}

/// The configuration of a maker.
#[derive(Debug, Clone, PartialEq, Eq)]
pub struct MakerConfig {
    /// Port for remote control.
    pub rpc_port: u16,
    /// Port for takers.
    pub network_port: u16,
    /// Control port of Tor.
    pub control_port: u16,
    /// Socks port of Tor.
    pub socks_port: u16,
    /// Password of Tor.
    pub tor_auth_password: String,
    /// Smallest amount in satoshis that can be swapped.
    pub min_swap_amount: u64,
    /// Amount of the fidelity bond in satoshis.
    pub fidelity_amount: u64,
    /// Lock time of the fidelity bond in blocks.
    pub fidelity_timelock: u32,
    /// Base fee in satoshis.
    pub base_fee: u64,
    /// Percentage fee on the swap amount.
    pub amount_relative_fee_pct: RateBits,
}

/// What such a configuration holds.
pub struct ConfigModel {
    pub rpc_port: u16,
    pub network_port: u16,
    pub control_port: u16,
    pub socks_port: u16,
    pub tor_auth_password: Seq<char>,
    pub min_swap_amount: u64,
    pub fidelity_amount: u64,
    pub fidelity_timelock: u32,
    pub base_fee: u64,
    pub amount_relative_fee_pct: RateBits,
}

impl View for MakerConfig {
    type V = ConfigModel;

    open spec fn view(&self) -> ConfigModel {
        ConfigModel {
            rpc_port: self.rpc_port,
            network_port: self.network_port,
            control_port: self.control_port,
            socks_port: self.socks_port,
            tor_auth_password: self.tor_auth_password@,
            min_swap_amount: self.min_swap_amount,
            fidelity_amount: self.fidelity_amount,
            fidelity_timelock: self.fidelity_timelock,
            base_fee: self.base_fee,
            amount_relative_fee_pct: self.amount_relative_fee_pct,
        }
    }
}

/// The configuration where nothing else is said.
pub open spec fn default_config() -> ConfigModel {
    ConfigModel {
        rpc_port: 6103,
        network_port: 6102,
        control_port: 9051,
        socks_port: 9050,
        tor_auth_password: seq![],
        min_swap_amount: MIN_SWAP_AMOUNT,
        fidelity_amount: 50_000,
        fidelity_timelock: 13_104,
        base_fee: 100,
        amount_relative_fee_pct: RateBits(DEFAULT_FEE_PCT),
    }
}

impl Default for MakerConfig {
    fn default() -> (r: Self)
        ensures
            r@ == default_config(),
    {
        let r = MakerConfig {
            rpc_port: 6103,
            network_port: 6102,
            control_port: 9051,
            socks_port: 9050,
            tor_auth_password: String::new(),
            min_swap_amount: MIN_SWAP_AMOUNT,
            fidelity_amount: 50_000,
            fidelity_timelock: 13_104,
            base_fee: 100,
            amount_relative_fee_pct: RateBits(DEFAULT_FEE_PCT),
        };
        assert(r@.tor_auth_password =~= seq![]);
        r
    }
}

/// Why a configuration is rejected.
#[derive(Debug, Clone, Copy, PartialEq, Eq, Structural)]
pub enum ConfigFault {
    /// The lock time of the fidelity bond is too low.
    TimelockTooLow(u32),
    /// The lock time of the fidelity bond is too high.
    TimelockTooHigh(u32),
}

/// What the lock time of a fidelity bond is rejected for.
pub open spec fn timelock_fault(timelock: u32) -> Result<(), ConfigFault> {
    if timelock < MIN_FIDELITY_TIMELOCK {
        Err(ConfigFault::TimelockTooLow(timelock))
    } else if timelock > MAX_FIDELITY_TIMELOCK {
        Err(ConfigFault::TimelockTooHigh(timelock))
    } else {
        Ok(())
    }
}

/// The configuration that settings make. `rate` is the percentage fee, where
/// its setting is a number.
pub open spec fn configured(fields: Seq<(Seq<char>, Seq<char>)>, rate: Option<RateBits>) ->
    ConfigModel {
    let default = default_config();
    let ports = u16::MAX as int;
    let amounts = u64::MAX as int;
    ConfigModel {
        rpc_port: number_or_default(fields, "rpc_port"@, ports, default.rpc_port as int) as u16,
        network_port: number_or_default(
            fields,
            "network_port"@,
            ports,
            default.network_port as int,
        ) as u16,
        control_port: number_or_default(
            fields,
            "control_port"@,
            ports,
            default.control_port as int,
        ) as u16,
        socks_port: number_or_default(
            fields,
            "socks_port"@,
            ports,
            default.socks_port as int,
        ) as u16,
        tor_auth_password: text_or_nothing(fields, "tor_auth_password"@),
        min_swap_amount: number_or_default(
            fields,
            "min_swap_amount"@,
            amounts,
            default.min_swap_amount as int,
        ) as u64,
        fidelity_amount: number_or_default(
            fields,
            "fidelity_amount"@,
            amounts,
            default.fidelity_amount as int,
        ) as u64,
        fidelity_timelock: number_or_default(
            fields,
            "fidelity_timelock"@,
            u32::MAX as int,
            default.fidelity_timelock as int,
        ) as u32,
        base_fee: number_or_default(fields, "base_fee"@, amounts, default.base_fee as int) as u64,
        amount_relative_fee_pct: if rate is Some {
            rate->0
        } else {
            default.amount_relative_fee_pct
        },
    }
}

/// The settings of a configuration as they are written. `rate` is the text of
/// the percentage fee.
pub open spec fn config_items(config: ConfigModel, rate: Seq<char>) -> Seq<ItemModel> {
    seq![
        ItemModel {
            comment: "Network port for client connections"@,
            key: "network_port"@,
            value: decimal(config.network_port as nat),
        },
        ItemModel {
            comment: "RPC port for maker-cli operations"@,
            key: "rpc_port"@,
            value: decimal(config.rpc_port as nat),
        },
        ItemModel {
            comment: "Socks port for Tor proxy"@,
            key: "socks_port"@,
            value: decimal(config.socks_port as nat),
        },
        ItemModel {
            comment: "Control port for Tor  interface"@,
            key: "control_port"@,
            value: decimal(config.control_port as nat),
        },
        ItemModel {
            comment: "Authentication password for Tor interface"@,
            key: "tor_auth_password"@,
            value: config.tor_auth_password,
        },
        ItemModel {
            comment: "Minimum amount in satoshis that can be swapped"@,
            key: "min_swap_amount"@,
            value: decimal(config.min_swap_amount as nat),
        },
        ItemModel {
            comment: "Fidelity Bond amount in satoshis"@,
            key: "fidelity_amount"@,
            value: decimal(config.fidelity_amount as nat),
        },
        ItemModel {
            comment: "Fidelity Bond relative timelock in number of blocks "@,
            key: "fidelity_timelock"@,
            value: decimal(config.fidelity_timelock as nat),
        },
        ItemModel {
            comment: "A fixed base fee charged by the Maker for providing its services (in satoshis)"@,
            key: "base_fee"@,
            value: decimal(config.base_fee as nat),
        },
        ItemModel {
            comment: "A percentage fee based on the swap amount"@,
            key: "amount_relative_fee_pct"@,
            value: rate,
        },
    ]
}

/// The text of a configuration.
pub open spec fn config_text(config: ConfigModel, rate: Seq<char>) -> Seq<char> {
    settings_text("Maker Configuration File"@, false, config_items(config, rate))
}

impl MakerConfig {
    /// Reads a configuration from the text of a settings file; what is missing
    /// or unreadable stays at its default. `rate` is the percentage fee, where
    /// its setting is a number.
    pub fn from_text(text: &str, rate: Option<RateBits>) -> (r: Result<Self, ConfigFault>)
        ensures
            match (r, timelock_fault(configured(settings(text@), rate).fidelity_timelock)) {
                (Ok(config), Ok(_)) => config@ == configured(settings(text@), rate),
                (Err(e), Err(fault)) => e == fault,
                _ => false,
            },
    {
        let fields = parse_settings(text);
        let default = MakerConfig::default();
        let config = MakerConfig {
            rpc_port: port_or(&fields, "rpc_port", default.rpc_port),
            network_port: port_or(&fields, "network_port", default.network_port),
            control_port: port_or(&fields, "control_port", default.control_port),
            socks_port: port_or(&fields, "socks_port", default.socks_port),
            tor_auth_password: text_or(&fields, "tor_auth_password"),
            min_swap_amount: amount_or(&fields, "min_swap_amount", default.min_swap_amount),
            fidelity_amount: amount_or(&fields, "fidelity_amount", default.fidelity_amount),
            fidelity_timelock: count_or(&fields, "fidelity_timelock", default.fidelity_timelock),
            base_fee: amount_or(&fields, "base_fee", default.base_fee),
            amount_relative_fee_pct: rate_or(rate, default.amount_relative_fee_pct),
        };
        match config.validate() {
            Err(fault) => Err(fault),
            Ok(_) => Ok(config),
        }
    }

    /// Checks the bounds of the parameters.
    pub fn validate(&self) -> (r: Result<(), ConfigFault>)
        ensures
            r == timelock_fault(self.fidelity_timelock),
    {
        if self.fidelity_timelock < MIN_FIDELITY_TIMELOCK {
            return Err(ConfigFault::TimelockTooLow(self.fidelity_timelock));
        }
        if self.fidelity_timelock > MAX_FIDELITY_TIMELOCK {
            return Err(ConfigFault::TimelockTooHigh(self.fidelity_timelock));
        }
        Ok(())
    }

    /// The text of a settings file for the configuration. `rate` is the text
    /// of the percentage fee.
    pub fn to_text(&self, rate: &str) -> (r: String)
        ensures
            r@ == config_text(self@, rate@),
    {
        let mut items: Vec<SettingItem> = Vec::new();
        items.push(
            setting_item(
                "Network port for client connections",
                "network_port",
                decimal_text(self.network_port as u64),
            ),
        );
        items.push(
            setting_item(
                "RPC port for maker-cli operations",
                "rpc_port",
                decimal_text(self.rpc_port as u64),
            ),
        );
        items.push(
            setting_item(
                "Socks port for Tor proxy",
                "socks_port",
                decimal_text(self.socks_port as u64),
            ),
        );
        items.push(
            setting_item(
                "Control port for Tor  interface",
                "control_port",
                decimal_text(self.control_port as u64),
            ),
        );
        items.push(
            setting_item(
                "Authentication password for Tor interface",
                "tor_auth_password",
                self.tor_auth_password.clone(),
            ),
        );
        items.push(
            setting_item(
                "Minimum amount in satoshis that can be swapped",
                "min_swap_amount",
                decimal_text(self.min_swap_amount),
            ),
        );
        items.push(
            setting_item(
                "Fidelity Bond amount in satoshis",
                "fidelity_amount",
                decimal_text(self.fidelity_amount),
            ),
        );
        items.push(
            setting_item(
                "Fidelity Bond relative timelock in number of blocks ",
                "fidelity_timelock",
                decimal_text(self.fidelity_timelock as u64),
            ),
        );
        items.push(
            setting_item(
                "A fixed base fee charged by the Maker for providing its services (in satoshis)",
                "base_fee",
                decimal_text(self.base_fee),
            ),
        );
        items.push(
            setting_item(
                "A percentage fee based on the swap amount",
                "amount_relative_fee_pct",
                rate.to_owned(),
            ),
        );
        assert(item_models(items@) =~= config_items(self@, rate@));
        write_settings("Maker Configuration File", false, &items)
    }
}

/// The number of a key that was written as its text.
proof fn lemma_number_is_read_back(
    fields: Seq<(Seq<char>, Seq<char>)>,
    key: Seq<char>,
    n: nat,
    max: int,
    default: int,
)
    requires
        value_of(fields, key) == Some(decimal(n)),
        n <= max,
    ensures
        number_or_default(fields, key, max, default) == n,
{
    lemma_decimal_reads_back(n);
    assert('0' <= decimal(n)[0] <= '9');
}

/// The value of the key at a position that no later setting has.
proof fn lemma_value_at(fields: Seq<(Seq<char>, Seq<char>)>, i: int)
    requires
        0 <= i < fields.len(),
        forall|j: int| i < j < fields.len() ==> (#[trigger] fields[j]).0 != fields[i].0,
    ensures
        value_of(fields, fields[i].0) == Some(fields[i].1),
    decreases fields.len(),
{
    if i < fields.len() - 1 {
        assert(fields.last() == fields[fields.len() - 1]);
        let shorter = fields.drop_last();
        assert forall|j: int| i < j < shorter.len() implies (#[trigger] shorter[j]).0
            != shorter[i].0 by {
            assert(shorter[j] == fields[j]);
        }
        lemma_value_at(shorter, i);
    }
}

/// The keys and comments of a configuration can be written, and no key comes
/// twice.
proof fn lemma_config_items(config: ConfigModel, rate: Seq<char>)
    requires
        is_value(config.tor_auth_password),
        is_value(rate),
    ensures
        are_items(config_items(config, rate)),
        is_one_line("Maker Configuration File"@),
        forall|i: int, j: int|
            0 <= i < j < 10 ==> (#[trigger] config_items(config, rate)[i]).key != (
            #[trigger] config_items(config, rate)[j]).key,
{
    reveal_strlit("Maker Configuration File");
    reveal_strlit("Network port for client connections");
    reveal_strlit("network_port");
    reveal_strlit("RPC port for maker-cli operations");
    reveal_strlit("rpc_port");
    reveal_strlit("Socks port for Tor proxy");
    reveal_strlit("socks_port");
    reveal_strlit("Control port for Tor  interface");
    reveal_strlit("control_port");
    reveal_strlit("Authentication password for Tor interface");
    reveal_strlit("tor_auth_password");
    reveal_strlit("Minimum amount in satoshis that can be swapped");
    reveal_strlit("min_swap_amount");
    reveal_strlit("Fidelity Bond amount in satoshis");
    reveal_strlit("fidelity_amount");
    reveal_strlit("Fidelity Bond relative timelock in number of blocks ");
    reveal_strlit("fidelity_timelock");
    reveal_strlit("A fixed base fee charged by the Maker for providing its services (in satoshis)");
    reveal_strlit("base_fee");
    reveal_strlit("A percentage fee based on the swap amount");
    reveal_strlit("amount_relative_fee_pct");
    lemma_decimal_is_value(config.network_port as nat);
    lemma_decimal_is_value(config.rpc_port as nat);
    lemma_decimal_is_value(config.socks_port as nat);
    lemma_decimal_is_value(config.control_port as nat);
    lemma_decimal_is_value(config.min_swap_amount as nat);
    lemma_decimal_is_value(config.fidelity_amount as nat);
    lemma_decimal_is_value(config.fidelity_timelock as nat);
    lemma_decimal_is_value(config.base_fee as nat);
    assert(is_one_line("Network port for client connections"@));
    assert(is_key("network_port"@));
    assert(is_one_line("RPC port for maker-cli operations"@));
    assert(is_key("rpc_port"@));
    assert(is_one_line("Socks port for Tor proxy"@));
    assert(is_key("socks_port"@));
    assert(is_one_line("Control port for Tor  interface"@));
    assert(is_key("control_port"@));
    assert(is_one_line("Authentication password for Tor interface"@));
    assert(is_key("tor_auth_password"@));
    assert(is_one_line("Minimum amount in satoshis that can be swapped"@));
    assert(is_key("min_swap_amount"@));
    assert(is_one_line("Fidelity Bond amount in satoshis"@));
    assert(is_key("fidelity_amount"@));
    assert(is_one_line("Fidelity Bond relative timelock in number of blocks "@));
    assert(is_key("fidelity_timelock"@));
    assert(is_one_line("A fixed base fee charged by the Maker for providing its services (in satoshis)"@));
    assert(is_key("base_fee"@));
    assert(is_one_line("A percentage fee based on the swap amount"@));
    assert(is_key("amount_relative_fee_pct"@));
    let items = config_items(config, rate);
    assert forall|i: int, j: int| 0 <= i < j < 10 implies (#[trigger] items[i]).key != (
    #[trigger] items[j]).key by {
        assert(items[i].key.len() != items[j].key.len() || items[i].key[0] != items[j].key[0]);
    }
}

/// A configuration that was written is read back as it was, given the rate
/// that its text stands for: what the maker saves is what it starts with.
pub proof fn law_config_is_read_back(config: ConfigModel, rate: Seq<char>)
    requires
        is_value(config.tor_auth_password),
        is_value(rate),
    ensures
        configured(settings(config_text(config, rate)), Some(config.amount_relative_fee_pct))
            == config,
        value_of(settings(config_text(config, rate)), "amount_relative_fee_pct"@) == Some(rate),
{
    let items = config_items(config, rate);
    lemma_config_items(config, rate);
    law_written_settings_are_read_back("Maker Configuration File"@, false, items);
    let fields = item_settings(items);
    assert forall|i: int| 0 <= i < 10 implies value_of(fields, #[trigger] items[i].key) == Some(
        items[i].value,
    ) by {
        assert(fields[i] == (items[i].key, items[i].value));
        assert forall|j: int| i < j < fields.len() implies (#[trigger] fields[j]).0
            != fields[i].0 by {
            assert(fields[j] == (items[j].key, items[j].value));
        }
        lemma_value_at(fields, i);
    }
    assert(items[0].key == "network_port"@);
    lemma_number_is_read_back(
        fields,
        "network_port"@,
        config.network_port as nat,
        u16::MAX as int,
        default_config().network_port as int,
    );
    assert(items[1].key == "rpc_port"@);
    lemma_number_is_read_back(
        fields,
        "rpc_port"@,
        config.rpc_port as nat,
        u16::MAX as int,
        default_config().rpc_port as int,
    );
    assert(items[2].key == "socks_port"@);
    lemma_number_is_read_back(
        fields,
        "socks_port"@,
        config.socks_port as nat,
        u16::MAX as int,
        default_config().socks_port as int,
    );
    assert(items[3].key == "control_port"@);
    lemma_number_is_read_back(
        fields,
        "control_port"@,
        config.control_port as nat,
        u16::MAX as int,
        default_config().control_port as int,
    );
    assert(items[4].key == "tor_auth_password"@);
    assert(items[5].key == "min_swap_amount"@);
    lemma_number_is_read_back(
        fields,
        "min_swap_amount"@,
        config.min_swap_amount as nat,
        u64::MAX as int,
        default_config().min_swap_amount as int,
    );
    assert(items[6].key == "fidelity_amount"@);
    lemma_number_is_read_back(
        fields,
        "fidelity_amount"@,
        config.fidelity_amount as nat,
        u64::MAX as int,
        default_config().fidelity_amount as int,
    );
    assert(items[7].key == "fidelity_timelock"@);
    lemma_number_is_read_back(
        fields,
        "fidelity_timelock"@,
        config.fidelity_timelock as nat,
        u32::MAX as int,
        default_config().fidelity_timelock as int,
    );
    assert(items[8].key == "base_fee"@);
    lemma_number_is_read_back(
        fields,
        "base_fee"@,
        config.base_fee as nat,
        u64::MAX as int,
        default_config().base_fee as int,
    );
    assert(items[9].key == "amount_relative_fee_pct"@);
}

/// The configuration of the maker server.
#[derive(Debug, Clone, PartialEq, Eq)]
pub struct MakerServerConfig {
    /// Port for takers.
    pub network_port: u16,
    /// Port for remote control.
    pub rpc_port: u16,
    /// Base fee in satoshis per swap.
    pub base_fee: u64,
    /// Percentage fee on the swap amount.
    pub amount_relative_fee_pct: RateBits,
    /// Percentage fee on the swap duration.
    pub time_relative_fee_pct: RateBits,
    /// Smallest swap amount in satoshis.
    pub min_swap_amount: u64,
    /// Required confirmations of funding transactions.
    pub required_confirms: u32,
    /// Supported protocol versions.
    pub supported_protocols: Vec<ProtocolVersion>,
    /// Amount of the fidelity bond in satoshis.
    pub fidelity_amount: u64,
    /// Lock time of the fidelity bond in blocks.
    pub fidelity_timelock: u32,
    /// Fee rate of the fidelity bond's transaction.
    pub fidelity_feerate: RateBits,
    /// Control port of Tor.
    pub control_port: u16,
    /// Socks port of Tor.
    pub socks_port: u16,
    /// Password of Tor.
    pub tor_auth_password: String,
}

/// What such a configuration holds.
pub struct ServerConfigModel {
    pub network_port: u16,
    pub rpc_port: u16,
    pub base_fee: u64,
    pub amount_relative_fee_pct: RateBits,
    pub time_relative_fee_pct: RateBits,
    pub min_swap_amount: u64,
    pub required_confirms: u32,
    pub supported_protocols: Seq<ProtocolVersion>,
    pub fidelity_amount: u64,
    pub fidelity_timelock: u32,
    pub fidelity_feerate: RateBits,
    pub control_port: u16,
    pub socks_port: u16,
    pub tor_auth_password: Seq<char>,
}

impl View for MakerServerConfig {
    type V = ServerConfigModel;

    open spec fn view(&self) -> ServerConfigModel {
        ServerConfigModel {
            network_port: self.network_port,
            rpc_port: self.rpc_port,
            base_fee: self.base_fee,
            amount_relative_fee_pct: self.amount_relative_fee_pct,
            time_relative_fee_pct: self.time_relative_fee_pct,
            min_swap_amount: self.min_swap_amount,
            required_confirms: self.required_confirms,
            supported_protocols: self.supported_protocols@,
            fidelity_amount: self.fidelity_amount,
            fidelity_timelock: self.fidelity_timelock,
            fidelity_feerate: self.fidelity_feerate,
            control_port: self.control_port,
            socks_port: self.socks_port,
            tor_auth_password: self.tor_auth_password@,
        }
    }
}

/// The rates of the maker server: the percentage fees and the fee rate of the
/// fidelity bond's transaction.
#[derive(Debug, Clone, Copy, PartialEq, Eq, Structural)]
pub struct ServerRates {
    pub amount_relative_fee_pct: RateBits,
    pub time_relative_fee_pct: RateBits,
    pub fidelity_feerate: RateBits,
}

/// The configuration that settings make, but for its checks. `rates` are the
/// rates that apply.
pub open spec fn server_configured(
    fields: Seq<(Seq<char>, Seq<char>)>,
    rates: ServerRates,
) -> ServerConfigModel {
    let ports = u16::MAX as int;
    let amounts = u64::MAX as int;
    ServerConfigModel {
        network_port: number_or_default(fields, "network_port"@, ports, 6102) as u16,
        rpc_port: number_or_default(fields, "rpc_port"@, ports, 6103) as u16,
        base_fee: number_or_default(fields, "base_fee"@, amounts, 500) as u64,
        amount_relative_fee_pct: rates.amount_relative_fee_pct,
        time_relative_fee_pct: rates.time_relative_fee_pct,
        min_swap_amount: number_or_default(
            fields,
            "min_swap_amount"@,
            amounts,
            MIN_SWAP_AMOUNT as int,
        ) as u64,
        required_confirms: number_or_default(
            fields,
            "required_confirms"@,
            u32::MAX as int,
            1,
        ) as u32,
        supported_protocols: seq![ProtocolVersion::Legacy, ProtocolVersion::Taproot],
        fidelity_amount: number_or_default(fields, "fidelity_amount"@, amounts, 10_000) as u64,
        fidelity_timelock: number_or_default(
            fields,
            "fidelity_timelock"@,
            u32::MAX as int,
            15_000,
        ) as u32,
        fidelity_feerate: rates.fidelity_feerate,
        control_port: number_or_default(fields, "control_port"@, ports, 9051) as u16,
        socks_port: number_or_default(fields, "socks_port"@, ports, 9050) as u16,
        tor_auth_password: text_or_nothing(fields, "tor_auth_password"@),
    }
}

/// What a server configuration is rejected for.
pub open spec fn server_config_verdict(config: ServerConfigModel) -> Result<(), WalletFault> {
    if config.fidelity_timelock < MIN_FIDELITY_TIMELOCK || config.fidelity_timelock
        > MAX_FIDELITY_TIMELOCK {
        Err(WalletFault::InvalidBondLocktime)
    } else if config.min_swap_amount < MIN_SWAP_AMOUNT {
        Err(
            WalletFault::InsufficientFund {
                available: config.min_swap_amount,
                required: MIN_SWAP_AMOUNT,
            },
        )
    } else {
        Ok(())
    }
}

/// The comment on the fee rate of the fidelity bond's transaction.
pub open spec fn feerate_comment(least: Seq<char>) -> Seq<char> {
    "Fee rate in sats/vB for the fidelity bond transaction (must be at least "@ + least + seq![')']
}

/// The settings of a server configuration as they are written. `rates` are the
/// texts of the rates.
pub open spec fn server_items(config: ServerConfigModel, rates: RateTextsModel) -> Seq<ItemModel> {
    seq![
        ItemModel {
            comment: "Network port for client connections"@,
            key: "network_port"@,
            value: decimal(config.network_port as nat),
        },
        ItemModel {
            comment: "RPC port for maker-cli operations"@,
            key: "rpc_port"@,
            value: decimal(config.rpc_port as nat),
        },
        ItemModel {
            comment: "Socks port for Tor proxy"@,
            key: "socks_port"@,
            value: decimal(config.socks_port as nat),
        },
        ItemModel {
            comment: "Control port for Tor interface"@,
            key: "control_port"@,
            value: decimal(config.control_port as nat),
        },
        ItemModel {
            comment: "Authentication password for Tor interface"@,
            key: "tor_auth_password"@,
            value: config.tor_auth_password,
        },
        ItemModel {
            comment: "Minimum amount in satoshis that can be swapped"@,
            key: "min_swap_amount"@,
            value: decimal(config.min_swap_amount as nat),
        },
        ItemModel {
            comment: "Fidelity Bond amount in satoshis"@,
            key: "fidelity_amount"@,
            value: decimal(config.fidelity_amount as nat),
        },
        ItemModel {
            comment: "Fidelity Bond timelock in blocks (must be between 12960 and 25920)"@,
            key: "fidelity_timelock"@,
            value: decimal(config.fidelity_timelock as nat),
        },
        ItemModel {
            comment: feerate_comment(rates.least_feerate),
            key: "fidelity_feerate"@,
            value: rates.fidelity_feerate,
        },
        ItemModel {
            comment: "A fixed base fee charged by the Maker for providing its services (in satoshis)"@,
            key: "base_fee"@,
            value: decimal(config.base_fee as nat),
        },
        ItemModel {
            comment: "A percentage fee based on the swap amount"@,
            key: "amount_relative_fee_pct"@,
            value: rates.amount_relative_fee_pct,
        },
        ItemModel {
            comment: "A percentage fee based on the swap duration"@,
            key: "time_relative_fee_pct"@,
            value: rates.time_relative_fee_pct,
        },
        ItemModel {
            comment: "Required confirmations for funding transactions"@,
            key: "required_confirms"@,
            value: decimal(config.required_confirms as nat),
        },
    ]
}

/// The texts of the rates of the maker server.
#[derive(Debug)]
pub struct RateTexts {
    pub amount_relative_fee_pct: String,
    pub time_relative_fee_pct: String,
    pub fidelity_feerate: String,
    /// The least fee rate of the fidelity bond's transaction.
    pub least_feerate: String,
}

/// What such texts hold.
pub struct RateTextsModel {
    pub amount_relative_fee_pct: Seq<char>,
    pub time_relative_fee_pct: Seq<char>,
    pub fidelity_feerate: Seq<char>,
    pub least_feerate: Seq<char>,
}

impl View for RateTexts {
    type V = RateTextsModel;

    open spec fn view(&self) -> RateTextsModel {
        RateTextsModel {
            amount_relative_fee_pct: self.amount_relative_fee_pct@,
            time_relative_fee_pct: self.time_relative_fee_pct@,
            fidelity_feerate: self.fidelity_feerate@,
            least_feerate: self.least_feerate@,
        }
    }
}

/// The text of a server configuration.
pub open spec fn server_config_text(config: ServerConfigModel, rates: RateTextsModel) -> Seq<char> {
    settings_text("Maker Configuration File"@, true, server_items(config, rates))
}

impl MakerServerConfig {
    /// Reads a configuration from the text of a settings file; what is missing
    /// or unreadable stays at its default. `rates` are the rates that apply.
    pub fn from_text(text: &str, rates: ServerRates) -> (r: Result<Self, WalletFault>)
        ensures
            match (r, server_config_verdict(server_configured(settings(text@), rates))) {
                (Ok(config), Ok(_)) => config@ == server_configured(settings(text@), rates),
                (Err(e), Err(fault)) => e == fault,
                _ => false,
            },
    {
        let fields = parse_settings(text);
        let mut supported_protocols: Vec<ProtocolVersion> = Vec::new();
        supported_protocols.push(ProtocolVersion::Legacy);
        supported_protocols.push(ProtocolVersion::Taproot);
        let config = MakerServerConfig {
            network_port: port_or(&fields, "network_port", 6102),
            rpc_port: port_or(&fields, "rpc_port", 6103),
            base_fee: amount_or(&fields, "base_fee", 500),
            amount_relative_fee_pct: rates.amount_relative_fee_pct,
            time_relative_fee_pct: rates.time_relative_fee_pct,
            min_swap_amount: amount_or(&fields, "min_swap_amount", MIN_SWAP_AMOUNT),
            required_confirms: count_or(&fields, "required_confirms", 1),
            supported_protocols,
            fidelity_amount: amount_or(&fields, "fidelity_amount", 10_000),
            fidelity_timelock: count_or(&fields, "fidelity_timelock", 15_000),
            fidelity_feerate: rates.fidelity_feerate,
            control_port: port_or(&fields, "control_port", 9051),
            socks_port: port_or(&fields, "socks_port", 9050),
            tor_auth_password: text_or(&fields, "tor_auth_password"),
        };
        assert(config@.supported_protocols =~= seq![
            ProtocolVersion::Legacy,
            ProtocolVersion::Taproot,
        ]);
        if config.fidelity_timelock < MIN_FIDELITY_TIMELOCK || config.fidelity_timelock
            > MAX_FIDELITY_TIMELOCK {
            return Err(WalletFault::InvalidBondLocktime);
        }
        if config.min_swap_amount < MIN_SWAP_AMOUNT {
            return Err(
                WalletFault::InsufficientFund {
                    available: config.min_swap_amount,
                    required: MIN_SWAP_AMOUNT,
                },
            );
        }
        Ok(config)
    }

    /// The text of a settings file for the configuration.
    pub fn to_text(&self, rates: &RateTexts) -> (r: String)
        ensures
            r@ == server_config_text(self@, rates@),
    {
        let mut items: Vec<SettingItem> = Vec::new();
        items.push(
            setting_item(
                "Network port for client connections",
                "network_port",
                decimal_text(self.network_port as u64),
            ),
        );
        items.push(
            setting_item(
                "RPC port for maker-cli operations",
                "rpc_port",
                decimal_text(self.rpc_port as u64),
            ),
        );
        items.push(
            setting_item(
                "Socks port for Tor proxy",
                "socks_port",
                decimal_text(self.socks_port as u64),
            ),
        );
        items.push(
            setting_item(
                "Control port for Tor interface",
                "control_port",
                decimal_text(self.control_port as u64),
            ),
        );
        items.push(
            setting_item(
                "Authentication password for Tor interface",
                "tor_auth_password",
                self.tor_auth_password.clone(),
            ),
        );
        items.push(
            setting_item(
                "Minimum amount in satoshis that can be swapped",
                "min_swap_amount",
                decimal_text(self.min_swap_amount),
            ),
        );
        items.push(
            setting_item(
                "Fidelity Bond amount in satoshis",
                "fidelity_amount",
                decimal_text(self.fidelity_amount),
            ),
        );
        items.push(
            setting_item(
                "Fidelity Bond timelock in blocks (must be between 12960 and 25920)",
                "fidelity_timelock",
                decimal_text(self.fidelity_timelock as u64),
            ),
        );
        let mut comment = "Fee rate in sats/vB for the fidelity bond transaction (must be at least ".to_owned();
        comment.append(rates.least_feerate.as_str());
        comment.append(")");
        proof {
            reveal_strlit(")");
            assert(")"@ =~= seq![')']);
            assert(comment@ =~= feerate_comment(rates.least_feerate@));
        }
        items.push(
            setting_item(
                comment.as_str(),
                "fidelity_feerate",
                rates.fidelity_feerate.clone(),
            ),
        );
        items.push(
            setting_item(
                "A fixed base fee charged by the Maker for providing its services (in satoshis)",
                "base_fee",
                decimal_text(self.base_fee),
            ),
        );
        items.push(
            setting_item(
                "A percentage fee based on the swap amount",
                "amount_relative_fee_pct",
                rates.amount_relative_fee_pct.clone(),
            ),
        );
        items.push(
            setting_item(
                "A percentage fee based on the swap duration",
                "time_relative_fee_pct",
                rates.time_relative_fee_pct.clone(),
            ),
        );
        items.push(
            setting_item(
                "Required confirmations for funding transactions",
                "required_confirms",
                decimal_text(self.required_confirms as u64),
            ),
        );
        assert(item_models(items@) =~= server_items(self@, rates@));
        write_settings("Maker Configuration File", true, &items)
    }
}

/// The keys and comments of a server configuration can be written, and no key
/// comes twice.
#[verifier::rlimit(40)]
proof fn lemma_server_items(config: ServerConfigModel, rates: RateTextsModel)
    requires
        is_value(config.tor_auth_password),
        is_value(rates.amount_relative_fee_pct),
        is_value(rates.time_relative_fee_pct),
        is_value(rates.fidelity_feerate),
        is_one_line(rates.least_feerate),
    ensures
        are_items(server_items(config, rates)),
        is_one_line("Maker Configuration File"@),
        forall|i: int, j: int|
            0 <= i < j < 13 ==> (#[trigger] server_items(config, rates)[i]).key != (
            #[trigger] server_items(config, rates)[j]).key,
{
    reveal_strlit("Maker Configuration File");
    reveal_strlit("Network port for client connections");
    reveal_strlit("network_port");
    reveal_strlit("RPC port for maker-cli operations");
    reveal_strlit("rpc_port");
    reveal_strlit("Socks port for Tor proxy");
    reveal_strlit("socks_port");
    reveal_strlit("Control port for Tor interface");
    reveal_strlit("control_port");
    reveal_strlit("Authentication password for Tor interface");
    reveal_strlit("tor_auth_password");
    reveal_strlit("Minimum amount in satoshis that can be swapped");
    reveal_strlit("min_swap_amount");
    reveal_strlit("Fidelity Bond amount in satoshis");
    reveal_strlit("fidelity_amount");
    reveal_strlit("Fidelity Bond timelock in blocks (must be between 12960 and 25920)");
    reveal_strlit("fidelity_timelock");
    reveal_strlit("Fee rate in sats/vB for the fidelity bond transaction (must be at least ");
    reveal_strlit("fidelity_feerate");
    reveal_strlit("A fixed base fee charged by the Maker for providing its services (in satoshis)");
    reveal_strlit("base_fee");
    reveal_strlit("A percentage fee based on the swap amount");
    reveal_strlit("amount_relative_fee_pct");
    reveal_strlit("A percentage fee based on the swap duration");
    reveal_strlit("time_relative_fee_pct");
    reveal_strlit("Required confirmations for funding transactions");
    reveal_strlit("required_confirms");
    lemma_decimal_is_value(config.network_port as nat);
    lemma_decimal_is_value(config.rpc_port as nat);
    lemma_decimal_is_value(config.socks_port as nat);
    lemma_decimal_is_value(config.control_port as nat);
    lemma_decimal_is_value(config.min_swap_amount as nat);
    lemma_decimal_is_value(config.fidelity_amount as nat);
    lemma_decimal_is_value(config.fidelity_timelock as nat);
    lemma_decimal_is_value(config.base_fee as nat);
    lemma_decimal_is_value(config.required_confirms as nat);
    assert(is_one_line("Network port for client connections"@));
    assert(is_key("network_port"@));
    assert(is_one_line("RPC port for maker-cli operations"@));
    assert(is_key("rpc_port"@));
    assert(is_one_line("Socks port for Tor proxy"@));
    assert(is_key("socks_port"@));
    assert(is_one_line("Control port for Tor interface"@));
    assert(is_key("control_port"@));
    assert(is_one_line("Authentication password for Tor interface"@));
    assert(is_key("tor_auth_password"@));
    assert(is_one_line("Minimum amount in satoshis that can be swapped"@));
    assert(is_key("min_swap_amount"@));
    assert(is_one_line("Fidelity Bond amount in satoshis"@));
    assert(is_key("fidelity_amount"@));
    assert(is_one_line("Fidelity Bond timelock in blocks (must be between 12960 and 25920)"@));
    assert(is_key("fidelity_timelock"@));
    let start = "Fee rate in sats/vB for the fidelity bond transaction (must be at least "@;
    assert(is_one_line(start));
    assert(is_one_line(feerate_comment(rates.least_feerate))) by {
        let comment = feerate_comment(rates.least_feerate);
        let n = start.len() as int;
        assert forall|i: int| 0 <= i < comment.len() implies #[trigger] comment[i] != '\n' by {
            if i < n {
                assert(comment[i] == start[i]);
            } else if i < n + rates.least_feerate.len() {
                assert(comment[i] == rates.least_feerate[i - n]);
            }
        }
    }
    assert(is_key("fidelity_feerate"@));
    assert(is_one_line("A fixed base fee charged by the Maker for providing its services (in satoshis)"@));
    assert(is_key("base_fee"@));
    assert(is_one_line("A percentage fee based on the swap amount"@));
    assert(is_key("amount_relative_fee_pct"@));
    assert(is_one_line("A percentage fee based on the swap duration"@));
    assert(is_key("time_relative_fee_pct"@));
    assert(is_one_line("Required confirmations for funding transactions"@));
    assert(is_key("required_confirms"@));
    let items = server_items(config, rates);
    assert forall|i: int, j: int| 0 <= i < j < 13 implies (#[trigger] items[i]).key != (
    #[trigger] items[j]).key by {
        assert(items[i].key.len() != items[j].key.len() || items[i].key[0] != items[j].key[0]);
    }
}

/// A server configuration that was written is read back as it was, given the
/// rates that their texts stand for.
#[verifier::rlimit(40)]
pub proof fn law_server_config_is_read_back(config: ServerConfigModel, rates: RateTextsModel)
    requires
        is_value(config.tor_auth_password),
        is_value(rates.amount_relative_fee_pct),
        is_value(rates.time_relative_fee_pct),
        is_value(rates.fidelity_feerate),
        is_one_line(rates.least_feerate),
        config.supported_protocols == seq![ProtocolVersion::Legacy, ProtocolVersion::Taproot],
    ensures
        ({
            let fields = settings(server_config_text(config, rates));
            &&& server_configured(
                fields,
                ServerRates {
                    amount_relative_fee_pct: config.amount_relative_fee_pct,
                    time_relative_fee_pct: config.time_relative_fee_pct,
                    fidelity_feerate: config.fidelity_feerate,
                },
            ) == config
            &&& value_of(fields, "amount_relative_fee_pct"@) == Some(rates.amount_relative_fee_pct)
            &&& value_of(fields, "time_relative_fee_pct"@) == Some(rates.time_relative_fee_pct)
            &&& value_of(fields, "fidelity_feerate"@) == Some(rates.fidelity_feerate)
        }),
{
    let items = server_items(config, rates);
    lemma_server_items(config, rates);
    law_written_settings_are_read_back("Maker Configuration File"@, true, items);
    let fields = item_settings(items);
    assert forall|i: int| 0 <= i < 13 implies value_of(fields, #[trigger] items[i].key) == Some(
        items[i].value,
    ) by {
        assert(fields[i] == (items[i].key, items[i].value));
        assert forall|j: int| i < j < fields.len() implies (#[trigger] fields[j]).0
            != fields[i].0 by {
            assert(fields[j] == (items[j].key, items[j].value));
        }
        lemma_value_at(fields, i);
    }
    assert(items[0].key == "network_port"@);
    lemma_number_is_read_back(
        fields,
        "network_port"@,
        config.network_port as nat,
        u16::MAX as int,
        6102,
    );
    assert(items[1].key == "rpc_port"@);
    lemma_number_is_read_back(
        fields,
        "rpc_port"@,
        config.rpc_port as nat,
        u16::MAX as int,
        6103,
    );
    assert(items[2].key == "socks_port"@);
    lemma_number_is_read_back(
        fields,
        "socks_port"@,
        config.socks_port as nat,
        u16::MAX as int,
        9050,
    );
    assert(items[3].key == "control_port"@);
    lemma_number_is_read_back(
        fields,
        "control_port"@,
        config.control_port as nat,
        u16::MAX as int,
        9051,
    );
    assert(items[4].key == "tor_auth_password"@);
    assert(items[5].key == "min_swap_amount"@);
    lemma_number_is_read_back(
        fields,
        "min_swap_amount"@,
        config.min_swap_amount as nat,
        u64::MAX as int,
        MIN_SWAP_AMOUNT as int,
    );
    assert(items[6].key == "fidelity_amount"@);
    lemma_number_is_read_back(
        fields,
        "fidelity_amount"@,
        config.fidelity_amount as nat,
        u64::MAX as int,
        10_000,
    );
    assert(items[7].key == "fidelity_timelock"@);
    lemma_number_is_read_back(
        fields,
        "fidelity_timelock"@,
        config.fidelity_timelock as nat,
        u32::MAX as int,
        15_000,
    );
    assert(items[8].key == "fidelity_feerate"@);
    assert(items[9].key == "base_fee"@);
    lemma_number_is_read_back(
        fields,
        "base_fee"@,
        config.base_fee as nat,
        u64::MAX as int,
        500,
    );
    assert(items[10].key == "amount_relative_fee_pct"@);
    assert(items[11].key == "time_relative_fee_pct"@);
    assert(items[12].key == "required_confirms"@);
    lemma_number_is_read_back(
        fields,
        "required_confirms"@,
        config.required_confirms as nat,
        u32::MAX as int,
        1,
    );
}

/// Each setting that is a number in range sets the parameter of its own name,
/// and that one keeps its default where there is none.
pub proof fn law_settings_set_their_parameters(
    fields: Seq<(Seq<char>, Seq<char>)>,
    rate: Option<RateBits>,
)
    ensures
        ({
            let read = number_at(fields, "rpc_port"@, 65_535);
            configured(fields, rate).rpc_port == if read is Some {
                read->0
            } else {
                6103
            }
        }),
        ({
            let read = number_at(fields, "network_port"@, 65_535);
            configured(fields, rate).network_port == if read is Some {
                read->0
            } else {
                6102
            }
        }),
        ({
            let read = number_at(fields, "control_port"@, 65_535);
            configured(fields, rate).control_port == if read is Some {
                read->0
            } else {
                9051
            }
        }),
        ({
            let read = number_at(fields, "socks_port"@, 65_535);
            configured(fields, rate).socks_port == if read is Some {
                read->0
            } else {
                9050
            }
        }),
        ({
            let read = number_at(fields, "min_swap_amount"@, 0xffff_ffff_ffff_ffff);
            configured(fields, rate).min_swap_amount == if read is Some {
                read->0
            } else {
                10_000
            }
        }),
        ({
            let read = number_at(fields, "fidelity_amount"@, 0xffff_ffff_ffff_ffff);
            configured(fields, rate).fidelity_amount == if read is Some {
                read->0
            } else {
                50_000
            }
        }),
        ({
            let read = number_at(fields, "fidelity_timelock"@, 4_294_967_295);
            configured(fields, rate).fidelity_timelock == if read is Some {
                read->0
            } else {
                13_104
            }
        }),
        ({
            let read = number_at(fields, "base_fee"@, 0xffff_ffff_ffff_ffff);
            configured(fields, rate).base_fee == if read is Some {
                read->0
            } else {
                100
            }
        }),
        configured(fields, rate).tor_auth_password == if value_of(fields, "tor_auth_password"@)
            is Some {
            value_of(fields, "tor_auth_password"@)->0
        } else {
            seq![]
        },
        rate is Some ==> configured(fields, rate).amount_relative_fee_pct == rate->0,
        rate is None ==> configured(fields, rate).amount_relative_fee_pct == RateBits(
            0x3fb9_9999_9999_999a,
        ),
{
    lemma_numbers_in_range(fields);
}

/// Numbers that are read are in their range.
proof fn lemma_numbers_in_range(fields: Seq<(Seq<char>, Seq<char>)>)
    ensures
        forall|key: Seq<char>, max: int|
            (#[trigger] number_at(fields, key, max)) is Some ==> 0 <= number_at(
                fields,
                key,
                max,
            )->0 <= max,
{
    assert forall|key: Seq<char>, max: int|
        (#[trigger] number_at(fields, key, max)) is Some implies 0 <= number_at(fields, key, max)->0
        <= max by {
        crate::settings::law_numbers_are_decimal(value_of(fields, key)->0, max);
    }
}

/// Each setting of the server that is a number in range sets the parameter of
/// its own name, and that one keeps its default where there is none; both
/// protocols are always spoken, and the rates are those that apply.
pub proof fn law_server_settings_set_their_parameters(
    fields: Seq<(Seq<char>, Seq<char>)>,
    rates: ServerRates,
)
    ensures
        ({
            let read = number_at(fields, "rpc_port"@, 65_535);
            server_configured(fields, rates).rpc_port == if read is Some {
                read->0
            } else {
                6103
            }
        }),
        ({
            let read = number_at(fields, "network_port"@, 65_535);
            server_configured(fields, rates).network_port == if read is Some {
                read->0
            } else {
                6102
            }
        }),
        ({
            let read = number_at(fields, "control_port"@, 65_535);
            server_configured(fields, rates).control_port == if read is Some {
                read->0
            } else {
                9051
            }
        }),
        ({
            let read = number_at(fields, "socks_port"@, 65_535);
            server_configured(fields, rates).socks_port == if read is Some {
                read->0
            } else {
                9050
            }
        }),
        ({
            let read = number_at(fields, "min_swap_amount"@, 0xffff_ffff_ffff_ffff);
            server_configured(fields, rates).min_swap_amount == if read is Some {
                read->0
            } else {
                10_000
            }
        }),
        ({
            let read = number_at(fields, "fidelity_amount"@, 0xffff_ffff_ffff_ffff);
            server_configured(fields, rates).fidelity_amount == if read is Some {
                read->0
            } else {
                10_000
            }
        }),
        ({
            let read = number_at(fields, "fidelity_timelock"@, 4_294_967_295);
            server_configured(fields, rates).fidelity_timelock == if read is Some {
                read->0
            } else {
                15_000
            }
        }),
        ({
            let read = number_at(fields, "base_fee"@, 0xffff_ffff_ffff_ffff);
            server_configured(fields, rates).base_fee == if read is Some {
                read->0
            } else {
                500
            }
        }),
        ({
            let read = number_at(fields, "required_confirms"@, 4_294_967_295);
            server_configured(fields, rates).required_confirms == if read is Some {
                read->0
            } else {
                1
            }
        }),
        server_configured(fields, rates).tor_auth_password == if value_of(
            fields,
            "tor_auth_password"@,
        ) is Some {
            value_of(fields, "tor_auth_password"@)->0
        } else {
            seq![]
        },
        server_configured(fields, rates).amount_relative_fee_pct == rates.amount_relative_fee_pct,
        server_configured(fields, rates).time_relative_fee_pct == rates.time_relative_fee_pct,
        server_configured(fields, rates).fidelity_feerate == rates.fidelity_feerate,
        server_configured(fields, rates).supported_protocols.contains(ProtocolVersion::Legacy),
        server_configured(fields, rates).supported_protocols.contains(ProtocolVersion::Taproot),
{
    lemma_numbers_in_range(fields);
    assert(server_configured(fields, rates).supported_protocols[0] == ProtocolVersion::Legacy);
    assert(server_configured(fields, rates).supported_protocols[1] == ProtocolVersion::Taproot);
}

/// A bond is locked for about three to six months: from 12,960 to 25,920
/// blocks, both included, and nothing else is accepted; a rejected lock time is
/// named.
pub proof fn law_bond_timelocks_in_bounds(timelock: u32, config: ServerConfigModel)
    ensures
        timelock_fault(timelock) is Ok <==> 12_960 <= timelock <= 25_920,
        timelock < 12_960 ==> timelock_fault(timelock) == Err::<(), ConfigFault>(
            ConfigFault::TimelockTooLow(timelock),
        ),
        timelock > 25_920 ==> timelock_fault(timelock) == Err::<(), ConfigFault>(
            ConfigFault::TimelockTooHigh(timelock),
        ),
        server_config_verdict(config) is Ok <==> 12_960 <= config.fidelity_timelock <= 25_920
            && config.min_swap_amount >= 10_000,
        timelock_fault(default_config().fidelity_timelock) is Ok,
{
}

/// The comment on a setting is that of its own key, in either configuration
/// file.
pub proof fn law_comments_explain_their_settings(
    config: ConfigModel,
    rate: Seq<char>,
    server: ServerConfigModel,
    rates: RateTextsModel,
    i: int,
    j: int,
)
    requires
        0 <= i < config_items(config, rate).len(),
        0 <= j < server_items(server, rates).len(),
    ensures
        ({
            let item = config_items(config, rate)[i];
            &&& item.key == "network_port"@ ==> item.comment
                == "Network port for client connections"@
            &&& item.key == "rpc_port"@ ==> item.comment == "RPC port for maker-cli operations"@
            &&& item.key == "socks_port"@ ==> item.comment == "Socks port for Tor proxy"@
            &&& item.key == "min_swap_amount"@ ==> item.comment
                == "Minimum amount in satoshis that can be swapped"@
            &&& item.key == "fidelity_amount"@ ==> item.comment
                == "Fidelity Bond amount in satoshis"@
            &&& item.key == "amount_relative_fee_pct"@ ==> item.comment
                == "A percentage fee based on the swap amount"@
        }),
        ({
            let item = server_items(server, rates)[j];
            &&& item.key == "network_port"@ ==> item.comment
                == "Network port for client connections"@
            &&& item.key == "rpc_port"@ ==> item.comment == "RPC port for maker-cli operations"@
            &&& item.key == "socks_port"@ ==> item.comment == "Socks port for Tor proxy"@
            &&& item.key == "required_confirms"@ ==> item.comment
                == "Required confirmations for funding transactions"@
            &&& item.key == "time_relative_fee_pct"@ ==> item.comment
                == "A percentage fee based on the swap duration"@
            &&& item.key == "amount_relative_fee_pct"@ ==> item.comment
                == "A percentage fee based on the swap amount"@
            &&& item.key == "fidelity_timelock"@ ==> item.comment
                == "Fidelity Bond timelock in blocks (must be between 12960 and 25920)"@
        }),
{
    reveal_strlit("network_port");
    reveal_strlit("rpc_port");
    reveal_strlit("socks_port");
    reveal_strlit("control_port");
    reveal_strlit("tor_auth_password");
    reveal_strlit("min_swap_amount");
    reveal_strlit("fidelity_amount");
    reveal_strlit("fidelity_timelock");
    reveal_strlit("fidelity_feerate");
    reveal_strlit("base_fee");
    reveal_strlit("amount_relative_fee_pct");
    reveal_strlit("time_relative_fee_pct");
    reveal_strlit("required_confirms");
    assert("network_port"@[0] == 'n');
    assert("rpc_port"@[0] == 'r' && "rpc_port"@[1] == 'p');
    assert("socks_port"@[0] == 's');
    assert("control_port"@[0] == 'c');
    assert("tor_auth_password"@[0] == 't' && "tor_auth_password"@[1] == 'o');
    assert("min_swap_amount"@[0] == 'm');
    assert("fidelity_amount"@[0] == 'f' && "fidelity_amount"@[9] == 'a');
    assert("fidelity_timelock"@[0] == 'f' && "fidelity_timelock"@[9] == 't');
    assert("fidelity_feerate"@[0] == 'f' && "fidelity_feerate"@[9] == 'f');
    assert("base_fee"@[0] == 'b');
    assert("amount_relative_fee_pct"@[0] == 'a');
    assert("time_relative_fee_pct"@[0] == 't' && "time_relative_fee_pct"@[1] == 'i');
    assert("required_confirms"@[0] == 'r' && "required_confirms"@[1] == 'e');
}

} // verus!
