//! Application configuration: which settings the runtime needs, which of
//! them are required, and how the optional channel size is read.
//!
//! Reading the environment is I/O and stays outside the library; the
//! decisions — which missing setting is an error, and what an ill-formed
//! channel size falls back to — are made here, on plain values.

use vstd::prelude::*;

use crate::pipeline::DEFAULT_CHANNEL_CAPACITY;

verus! {

/// Aggregated configuration required to run the ingestion binary.
pub struct AppConfig {
    pub database_url: String,
    pub alpaca_api_key: String,
    pub alpaca_api_secret: String,
    pub alpaca_ws_url: String,
    pub channel_capacity: usize,
    pub symbols_path: String,
    pub polymarket_private_key: String,
}

/// Which required setting was missing.
#[derive(Clone, Copy, Debug, PartialEq, Eq, Structural)]
pub enum ConfigError {
    MissingDatabaseUrl,
    MissingAlpacaApiKey,
    MissingAlpacaApiSecret,
    MissingAlpacaWsUrl,
    MissingSymbolsPath,
    MissingPolymarketKey,
}

/// Whether the byte is a decimal digit.
pub open spec fn is_dec_digit(b: u8) -> bool {
    48u8 <= b <= 57u8
}

/// Whether every byte of the sequence is a decimal digit.
pub open spec fn all_dec_digits(s: Seq<u8>) -> bool {
    forall|i: int| 0 <= i < s.len() ==> is_dec_digit(s[i])
}

/// The number written by a sequence of decimal digits, most significant
/// digit first.
pub open spec fn dec_digits_value(s: Seq<u8>) -> int
    decreases s.len(),
{
    if s.len() == 0 {
        0
    } else {
        dec_digits_value(s.drop_last()) * 10 + (s.last() - 48u8)
    }
}

/// The digits of a decimal numeral: an optional leading plus sign is not
/// part of them.
pub open spec fn dec_numeral_digits(s: Seq<u8>) -> Seq<u8> {
    if s.len() > 0 && s[0] == 43u8 {
        s.drop_first()
    } else {
        s
    }
}

/// Whether the byte sequence is a decimal numeral whose value fits in a
/// `usize`: an optional plus sign, then at least one digit.
pub open spec fn is_usize_numeral(s: Seq<u8>) -> bool {
    &&& dec_numeral_digits(s).len() > 0
    &&& all_dec_digits(dec_numeral_digits(s))
    &&& dec_digits_value(dec_numeral_digits(s)) <= usize::MAX
}

/// A digit string's value never shrinks as more digits are appended.
proof fn lemma_dec_value_take_le(s: Seq<u8>, i: int)
    requires
        0 <= i <= s.len(),
        all_dec_digits(s),
    ensures
        0 <= dec_digits_value(s.take(i)) <= dec_digits_value(s),
    decreases s.len() - i,
{
    lemma_dec_value_nonneg(s.take(i));
    if i < s.len() {
        assert(s.take(i + 1).drop_last() =~= s.take(i));
        lemma_dec_value_nonneg(s.take(i));
        lemma_dec_value_take_le(s, i + 1);
    } else {
        assert(s.take(i) =~= s);
    }
}

/// A digit string's value is never negative.
proof fn lemma_dec_value_nonneg(s: Seq<u8>)
    requires
        all_dec_digits(s),
    ensures
        dec_digits_value(s) >= 0,
    decreases s.len(),
{
    if s.len() > 0 {
        assert(all_dec_digits(s.drop_last()));
        lemma_dec_value_nonneg(s.drop_last());
    }
}

/// Parses a decimal `usize` numeral (optional plus sign, then digits), as
/// the standard numeric parser reads it: `Some` exactly when the text is
/// such a numeral and its value fits, and then the value itself.
pub fn parse_usize_dec(s: &[u8]) -> (r: Option<usize>)
    ensures
        r is Some <==> is_usize_numeral(s@),
        r matches Some(n) ==> n == dec_digits_value(dec_numeral_digits(s@)),
{
    let offset: usize = if s.len() > 0 && s[0] == 43u8 {
        1
    } else {
        0
    };
    let ghost d = dec_numeral_digits(s@);
    proof {
        assert(d =~= s@.skip(offset as int));
    }
    if s.len() == offset {
        return None;
    }
    let mut acc: usize = 0;
    let mut i: usize = offset;
    while i < s.len()
        invariant
            offset <= i <= s.len(),
            d == s@.skip(offset as int),
            d == dec_numeral_digits(s@),
            all_dec_digits(d.take(i - offset)),
            acc == dec_digits_value(d.take(i - offset)),
        decreases s.len() - i,
    {
        let b = s[i];
        if b < 48u8 || b > 57u8 {
            proof {
                assert(d[i - offset] == s@[i as int]);
            }
            return None;
        }
        let digit = (b - 48u8) as usize;
        let wide: u128 = acc as u128 * 10 + digit as u128;
        proof {
            assert(d.take(i - offset + 1).drop_last() =~= d.take(i - offset));
            assert(all_dec_digits(d.take(i - offset + 1)));
        }
        if wide > usize::MAX as u128 {
            proof {
                assert(!is_usize_numeral(s@)) by {
                    if all_dec_digits(d) {
                        lemma_dec_value_take_le(d, i - offset + 1);
                    }
                }
            }
            return None;
        }
        acc = wide as usize;
        i = i + 1;
    }
    proof {
        assert(d.take(i - offset) =~= d);
        lemma_dec_value_nonneg(d);
    }
    Some(acc)
}

/// The channel capacity the runtime uses: the value of the setting where
/// it is present and is a well-formed numeral, the default otherwise.
pub fn channel_capacity_setting(raw: Option<&[u8]>) -> (r: usize)
    ensures
        r == match raw {
            Some(s) => if is_usize_numeral(s@) {
                dec_digits_value(dec_numeral_digits(s@))
            } else {
                DEFAULT_CHANNEL_CAPACITY as int
            },
            None => DEFAULT_CHANNEL_CAPACITY as int,
        },
{
    match raw {
        Some(s) => match parse_usize_dec(s) {
            Some(n) => n,
            None => DEFAULT_CHANNEL_CAPACITY,
        },
        None => DEFAULT_CHANNEL_CAPACITY,
    }
}

impl AppConfig {
    /// Builds the configuration from the settings as they were found, in
    /// the order the runtime checks them: the first missing required
    /// setting is the error; the channel size is optional and falls back
    /// to the default when absent or ill-formed.
    pub fn from_values(
        database_url: Option<String>,
        alpaca_api_key: Option<String>,
        alpaca_api_secret: Option<String>,
        alpaca_ws_url: Option<String>,
        symbols_path: Option<String>,
        polymarket_private_key: Option<String>,
        channel_size: Option<Vec<u8>>,
    ) -> (r: Result<Self, ConfigError>)
        ensures
            database_url is None ==> r == Err::<Self, _>(ConfigError::MissingDatabaseUrl),
            database_url is Some && alpaca_api_key is None ==> r == Err::<Self, _>(
                ConfigError::MissingAlpacaApiKey,
            ),
            database_url is Some && alpaca_api_key is Some && alpaca_api_secret is None ==> r
                == Err::<Self, _>(ConfigError::MissingAlpacaApiSecret),
            database_url is Some && alpaca_api_key is Some && alpaca_api_secret is Some
                && alpaca_ws_url is None ==> r == Err::<Self, _>(ConfigError::MissingAlpacaWsUrl),
            database_url is Some && alpaca_api_key is Some && alpaca_api_secret is Some
                && alpaca_ws_url is Some && symbols_path is None ==> r == Err::<Self, _>(
                ConfigError::MissingSymbolsPath,
            ),
            database_url is Some && alpaca_api_key is Some && alpaca_api_secret is Some
                && alpaca_ws_url is Some && symbols_path is Some && polymarket_private_key is None
                ==> r == Err::<Self, _>(ConfigError::MissingPolymarketKey),
            database_url is Some && alpaca_api_key is Some && alpaca_api_secret is Some
                && alpaca_ws_url is Some && symbols_path is Some && polymarket_private_key is Some
                ==> {
                &&& r matches Ok(c)
                &&& c.database_url == database_url->0
                &&& c.alpaca_api_key == alpaca_api_key->0
                &&& c.alpaca_api_secret == alpaca_api_secret->0
                &&& c.alpaca_ws_url == alpaca_ws_url->0
                &&& c.symbols_path == symbols_path->0
                &&& c.polymarket_private_key == polymarket_private_key->0
                &&& c.channel_capacity == match channel_size {
                    Some(s) => if is_usize_numeral(s@) {
                        dec_digits_value(dec_numeral_digits(s@))
                    } else {
                        DEFAULT_CHANNEL_CAPACITY as int
                    },
                    None => DEFAULT_CHANNEL_CAPACITY as int,
                }
            },
    {
        let channel_capacity = channel_capacity_setting(
            match &channel_size {
                Some(v) => Some(v.as_slice()),
                None => None,
            },
        );
        let database_url = match database_url {
            Some(v) => v,
            None => {
                return Err(ConfigError::MissingDatabaseUrl);
            },
        };
        let alpaca_api_key = match alpaca_api_key {
            Some(v) => v,
            None => {
                return Err(ConfigError::MissingAlpacaApiKey);
            },
        };
        let alpaca_api_secret = match alpaca_api_secret {
            Some(v) => v,
            None => {
                return Err(ConfigError::MissingAlpacaApiSecret);
            },
        };
        let alpaca_ws_url = match alpaca_ws_url {
            Some(v) => v,
            None => {
                return Err(ConfigError::MissingAlpacaWsUrl);
            },
        };
        let symbols_path = match symbols_path {
            Some(v) => v,
            None => {
                return Err(ConfigError::MissingSymbolsPath);
            },
        };
        let polymarket_private_key = match polymarket_private_key {
            Some(v) => v,
            None => {
                return Err(ConfigError::MissingPolymarketKey);
            },
        };
        Ok(
            AppConfig {
                database_url,
                alpaca_api_key,
                alpaca_api_secret,
                alpaca_ws_url,
                channel_capacity,
                symbols_path,
                polymarket_private_key,
            },
        )
    }
}

/// Configuration for the websocket consumer.
pub struct IngestionConfig {
    pub api_key: String,
    pub api_secret: String,
    pub base_url: String,
    pub symbols: Vec<String>,
}

impl IngestionConfig {
    /// A consumer configuration pointed at the stock data stream.
    pub fn new(api_key: String, api_secret: String, symbols: Vec<String>) -> (c: Self)
        ensures
            c.api_key == api_key,
            c.api_secret == api_secret,
            c.symbols == symbols,
            c.base_url@ == "wss://stream.data.alpaca.markets/v2/iex"@,
    {
        IngestionConfig {
            api_key,
            api_secret,
            base_url: "wss://stream.data.alpaca.markets/v2/iex".to_owned(),
            symbols,
        }
    }
}

/// Authentication message sent on the websocket.
pub struct AuthMessage {
    pub action: String,
    pub key: String,
    pub secret: String,
}

/// Subscription message sent on the websocket; absent channel lists are
/// left out of the wire form entirely.
pub struct SubscribeMessage {
    pub action: String,
    pub bars: Option<Vec<String>>,
    pub trades: Option<Vec<String>>,
    pub quotes: Option<Vec<String>>,
}

} // verus!
