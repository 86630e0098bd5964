//! Per-session parameters and the values derived from them.

use crate::error::{SessionError, SessionErrorView};
use vstd::arithmetic::div_mod::{
    lemma_div_is_ordered, lemma_fundamental_div_mod, lemma_mod_bound,
};
use vstd::prelude::*;
use vstd::utf8::encode_utf8;

verus! {

/// Bytes that one stored sample occupies.
pub const BYTES_PER_SAMPLE: u64 = 4;

/// Nanoseconds in one second.
pub const NANOS_PER_SECOND: u128 = 1_000_000_000;

/// Least number of bytes of a well-formed API key.
pub const MIN_API_KEY_BYTES: usize = 20;

/// The bytes `gsk_`, with which every API key begins.
pub open spec fn api_key_prefix() -> Seq<u8> {
    seq![0x67u8, 0x73u8, 0x6bu8, 0x5fu8]
}

/// Whether `bytes`, the UTF-8 form of a key, has the shape of an API key:
/// it begins with `gsk_` and is at least twenty bytes long.
pub open spec fn is_api_key_shape(bytes: Seq<u8>) -> bool {
    bytes.len() >= MIN_API_KEY_BYTES && bytes.subrange(0, 4) == api_key_prefix()
}

/// Whether the text `key` has the shape of an API key.
pub open spec fn is_api_key(key: Seq<char>) -> bool {
    is_api_key_shape(encode_utf8(key))
}

/// A failure that the credential store reported.
#[derive(Debug)]
pub struct StoreFailure {
    /// Whether the failure is that the store holds no entry.
    pub no_entry: bool,
    /// The store's own words.
    pub message: String,
}

/// A length of time in seconds, as the exact fraction of `numerator` over
/// `denominator`. The denominator of a length that the library hands out is
/// positive.
#[derive(Debug, Clone, Copy, PartialEq, Eq, Structural)]
pub struct Seconds {
    pub numerator: u64,
    pub denominator: u64,
}

impl Seconds {
    /// Whether this length is strictly shorter than `other`, both with
    /// positive denominators: compared by cross-multiplication, with no
    /// rounding.
    pub open spec fn shorter_than(self, other: Seconds) -> bool {
        self.numerator * other.denominator < other.numerator * self.denominator
    }

    /// Whether this length is `other` or shorter, both with positive
    /// denominators.
    pub open spec fn no_longer_than(self, other: Seconds) -> bool {
        self.numerator * other.denominator <= other.numerator * self.denominator
    }

    /// Whether this length is strictly shorter than `other`.
    pub fn is_shorter_than(&self, other: &Seconds) -> (shorter: bool)
        ensures
            shorter == self.shorter_than(*other),
    {
        proof {
            lemma_product_fits(self.numerator, other.denominator);
            lemma_product_fits(other.numerator, self.denominator);
        }
        (self.numerator as u128) * (other.denominator as u128) < (other.numerator as u128) * (
        self.denominator as u128)
    }

    /// Whether this length is `other` or shorter.
    pub fn is_no_longer_than(&self, other: &Seconds) -> (within: bool)
        ensures
            within == self.no_longer_than(*other),
    {
        proof {
            lemma_product_fits(self.numerator, other.denominator);
            lemma_product_fits(other.numerator, self.denominator);
        }
        (self.numerator as u128) * (other.denominator as u128) <= (other.numerator as u128) * (
        self.denominator as u128)
    }
}

/// The product of two values of sixty-four bits fits in a hundred and
/// twenty-eight bits.
proof fn lemma_product_fits(a: u64, b: u64)
    ensures
        a * b <= u64::MAX * u64::MAX <= u128::MAX,
{
    assert(a * b <= u64::MAX * u64::MAX) by (nonlinear_arith)
        requires
            a <= u64::MAX,
            b <= u64::MAX,
    ;
}

/// Parameters of one session.
#[derive(Debug)]
pub struct Config {
    pub api_endpoint: String,
    pub sample_rate: u32,
    pub channels: u16,
    pub max_file_size_bytes: usize,
    pub show_remove_api_key_button: bool,
    pub api_key: Option<String>,
}

/// The mathematical content of a [`Config`].
pub struct ConfigView {
    pub api_endpoint: Seq<char>,
    pub sample_rate: u32,
    pub channels: u16,
    pub max_file_size_bytes: usize,
    pub show_remove_api_key_button: bool,
    pub api_key: Option<Seq<char>>,
}

impl View for Config {
    type V = ConfigView;

    open spec fn view(&self) -> ConfigView {
        ConfigView {
            api_endpoint: self.api_endpoint@,
            sample_rate: self.sample_rate,
            channels: self.channels,
            max_file_size_bytes: self.max_file_size_bytes,
            show_remove_api_key_button: self.show_remove_api_key_button,
            api_key: option_text(self.api_key),
        }
    }
}

impl ConfigView {
    /// Bytes that one second of audio occupies.
    pub open spec fn bytes_per_second(self) -> int {
        self.sample_rate * self.channels * BYTES_PER_SAMPLE
    }

    /// Whether the parameters are usable: rate, channel count and size limit
    /// are all positive.
    pub open spec fn valid(self) -> bool {
        self.sample_rate > 0 && self.channels > 0 && self.max_file_size_bytes > 0
    }

    /// The longest recording that fits in the size limit, in seconds, with no
    /// rounding: the size limit over the bytes per second.
    pub open spec fn max_recording_seconds(self) -> Seconds {
        Seconds {
            numerator: self.max_file_size_bytes as u64,
            denominator: self.bytes_per_second() as u64,
        }
    }

    /// The longest recording that fits in the size limit, in nanoseconds:
    /// the size limit divided by the bytes per second, rounded up to the
    /// nanosecond. It is the first whole nanosecond at which a recording has
    /// filled the size limit.
    pub open spec fn max_recording_nanos(self) -> int {
        (self.max_file_size_bytes * NANOS_PER_SECOND + self.bytes_per_second() - 1)
            / self.bytes_per_second()
    }

    /// Whether a recording that has run for `elapsed_nanos` has filled the
    /// size limit: the time that has passed, in seconds, is at least the
    /// size limit over the bytes per second.
    pub open spec fn filled_after(self, elapsed_nanos: int) -> bool {
        elapsed_nanos * self.bytes_per_second() >= self.max_file_size_bytes * NANOS_PER_SECOND
    }
}

/// The text of an optional string.
pub open spec fn option_text(text: Option<String>) -> Option<Seq<char>> {
    match text {
        Some(t) => Some(t@),
        None => None,
    }
}

/// The text of an answer of the credential store, and the content of its
/// error.
pub open spec fn lookup_text(lookup: Result<Option<String>, SessionError>) -> Result<
    Option<Seq<char>>,
    SessionErrorView,
> {
    match lookup {
        Ok(key) => Ok(option_text(key)),
        Err(error) => Err(error@),
    }
}

/// The content of the error of a store operation without a value.
pub open spec fn unit_result(result: Result<(), SessionError>) -> Result<(), SessionErrorView> {
    match result {
        Ok(_) => Ok(()),
        Err(error) => Err(error@),
    }
}

/// The configuration a session has when nothing else is known: 44.1 kHz mono,
/// at most 25 MiB of stored audio, no credential.
pub open spec fn default_config() -> ConfigView {
    ConfigView {
        api_endpoint: "https://api.groq.com/openai/v1/audio/transcriptions"@,
        sample_rate: 44100,
        channels: 1,
        max_file_size_bytes: 26_214_400,
        show_remove_api_key_button: false,
        api_key: None,
    }
}

/// The credential a session starts with, given the key that the credential
/// store holds, if it holds one: that key if it has the shape of an API key,
/// else none.
pub open spec fn usable_key(stored: Option<String>) -> Option<Seq<char>> {
    match stored {
        Some(key) => if is_api_key(key@) {
            Some(key@)
        } else {
            None
        },
        None => None,
    }
}

/// The longest recording of a valid configuration is positive, and it is
/// reached exactly when the size limit is filled: rounding to the
/// nanosecond neither cuts a recording short nor lets it run over.
pub proof fn lemma_max_duration_is_exact(config: ConfigView, elapsed_nanos: int)
    requires
        config.valid(),
    ensures
        config.max_recording_nanos() >= 1,
        elapsed_nanos >= config.max_recording_nanos() <==> config.filled_after(elapsed_nanos),
{
    lemma_bytes_per_second_bounds(config);
    let rate: int = config.bytes_per_second();
    let size: int = config.max_file_size_bytes * NANOS_PER_SECOND;
    let limit: int = config.max_recording_nanos();
    lemma_fundamental_div_mod(size + rate - 1, rate);
    lemma_mod_bound(size + rate - 1, rate);
    assert(size <= rate * limit < size + rate);
    assert(limit >= 1) by (nonlinear_arith)
        requires
            rate > 0,
            size > 0,
            size <= rate * limit,
    ;
    if elapsed_nanos >= limit {
        assert(elapsed_nanos * rate >= limit * rate) by (nonlinear_arith)
            requires
                elapsed_nanos >= limit,
                rate > 0,
        ;
        assert(limit * rate == rate * limit) by (nonlinear_arith);
    } else {
        assert(elapsed_nanos * rate <= (limit - 1) * rate) by (nonlinear_arith)
            requires
                elapsed_nanos <= limit - 1,
                rate > 0,
        ;
        assert((limit - 1) * rate == rate * limit - rate) by (nonlinear_arith);
    }
}

/// A larger size limit makes the longest recording strictly longer, a
/// higher sample rate makes it strictly shorter, and so do more channels,
/// each with the other two parameters fixed. This is said of the exact
/// length; in whole nanoseconds two lengths that differ by less than a
/// nanosecond may coincide.
pub proof fn lemma_max_seconds_strictly_monotonic(first: ConfigView, second: ConfigView)
    requires
        first.valid(),
        second.valid(),
    ensures
        first.sample_rate == second.sample_rate && first.channels == second.channels
            && first.max_file_size_bytes < second.max_file_size_bytes
            ==> first.max_recording_seconds().shorter_than(second.max_recording_seconds()),
        first.max_file_size_bytes == second.max_file_size_bytes && first.channels
            == second.channels && first.sample_rate < second.sample_rate
            ==> second.max_recording_seconds().shorter_than(first.max_recording_seconds()),
        first.max_file_size_bytes == second.max_file_size_bytes && first.sample_rate
            == second.sample_rate && first.channels < second.channels
            ==> second.max_recording_seconds().shorter_than(first.max_recording_seconds()),
{
    lemma_bytes_per_second_bounds(first);
    lemma_bytes_per_second_bounds(second);
    let size1: int = first.max_file_size_bytes as int;
    let size2: int = second.max_file_size_bytes as int;
    let rate1: int = first.bytes_per_second();
    let rate2: int = second.bytes_per_second();
    assert(first.max_recording_seconds().numerator == size1);
    assert(first.max_recording_seconds().denominator == rate1);
    assert(second.max_recording_seconds().numerator == size2);
    assert(second.max_recording_seconds().denominator == rate2);
    if first.sample_rate == second.sample_rate && first.channels == second.channels && size1
        < size2 {
        assert(size1 * rate2 < size2 * rate1) by (nonlinear_arith)
            requires
                size1 < size2,
                rate1 == rate2,
                rate1 > 0,
        ;
    }
    if size1 == size2 && first.channels == second.channels && first.sample_rate
        < second.sample_rate {
        assert(rate1 < rate2) by (nonlinear_arith)
            requires
                first.sample_rate < second.sample_rate,
                first.channels == second.channels,
                first.channels > 0,
                rate1 == first.sample_rate * first.channels * 4,
                rate2 == second.sample_rate * second.channels * 4,
        ;
        assert(size2 * rate1 < size1 * rate2) by (nonlinear_arith)
            requires
                size1 == size2,
                size1 > 0,
                rate1 < rate2,
        ;
    }
    if size1 == size2 && first.sample_rate == second.sample_rate && first.channels
        < second.channels {
        assert(rate1 < rate2) by (nonlinear_arith)
            requires
                first.channels < second.channels,
                first.sample_rate == second.sample_rate,
                first.sample_rate > 0,
                rate1 == first.sample_rate * first.channels * 4,
                rate2 == second.sample_rate * second.channels * 4,
        ;
        assert(size2 * rate1 < size1 * rate2) by (nonlinear_arith)
            requires
                size1 == size2,
                size1 > 0,
                rate1 < rate2,
        ;
    }
}

/// The longest recording in nanoseconds is the exact length times a
/// thousand million, rounded up: an exact length that is no longer gives a
/// count of nanoseconds that is no larger.
pub proof fn lemma_nanos_follow_seconds(first: ConfigView, second: ConfigView)
    requires
        first.valid(),
        second.valid(),
        first.max_recording_seconds().no_longer_than(second.max_recording_seconds()),
    ensures
        first.max_recording_nanos() <= second.max_recording_nanos(),
{
    lemma_bytes_per_second_bounds(first);
    lemma_bytes_per_second_bounds(second);
    let size1: int = first.max_file_size_bytes as int;
    let size2: int = second.max_file_size_bytes as int;
    let rate1: int = first.bytes_per_second();
    let rate2: int = second.bytes_per_second();
    let limit: int = second.max_recording_nanos();
    lemma_max_duration_is_exact(second, limit);
    lemma_max_duration_is_exact(first, limit);
    // limit * rate2 >= size2 * 10^9 and size1 * rate2 <= size2 * rate1
    // give limit * rate1 >= size1 * 10^9.
    assert(limit * rate1 >= size1 * NANOS_PER_SECOND) by (nonlinear_arith)
        requires
            limit * rate2 >= size2 * NANOS_PER_SECOND,
            size1 * rate2 <= size2 * rate1,
            rate1 > 0,
            rate2 > 0,
            limit >= 1,
            size1 >= 0,
            size2 >= 0,
    ;
}

/// A larger size limit never shortens the longest recording.
pub proof fn lemma_max_duration_grows_with_size(small: ConfigView, large: ConfigView)
    requires
        small.valid(),
        large.valid(),
        small.sample_rate == large.sample_rate,
        small.channels == large.channels,
        small.max_file_size_bytes <= large.max_file_size_bytes,
    ensures
        small.max_recording_nanos() <= large.max_recording_nanos(),
{
    lemma_bytes_per_second_bounds(small);
    lemma_div_is_ordered(
        small.max_file_size_bytes * NANOS_PER_SECOND + small.bytes_per_second() - 1,
        large.max_file_size_bytes * NANOS_PER_SECOND + small.bytes_per_second() - 1,
        small.bytes_per_second(),
    );
}

/// Where a second of audio takes at most a byte per nanosecond, a larger size
/// limit makes the longest recording strictly longer.
pub proof fn lemma_max_duration_grows_strictly_with_size(small: ConfigView, large: ConfigView)
    requires
        small.valid(),
        large.valid(),
        small.sample_rate == large.sample_rate,
        small.channels == large.channels,
        small.max_file_size_bytes < large.max_file_size_bytes,
        small.bytes_per_second() <= NANOS_PER_SECOND,
    ensures
        small.max_recording_nanos() < large.max_recording_nanos(),
{
    lemma_bytes_per_second_bounds(small);
    let rate: int = small.bytes_per_second();
    let low: int = small.max_file_size_bytes * NANOS_PER_SECOND + rate - 1;
    let high: int = large.max_file_size_bytes * NANOS_PER_SECOND + rate - 1;
    lemma_fundamental_div_mod(low, rate);
    lemma_fundamental_div_mod(high, rate);
    lemma_mod_bound(low, rate);
    lemma_mod_bound(high, rate);
    assert(high - low >= rate);
    assert(rate * (high / rate) > rate * (low / rate) - rate);
    assert(high / rate > low / rate - 1) by (nonlinear_arith)
        requires
            rate > 0,
            rate * (high / rate) > rate * (low / rate) - rate,
    ;
    assert(high / rate >= low / rate);
    if high / rate == low / rate {
        assert(high % rate - low % rate == high - low);
        assert(false);
    }
}

/// A higher sample rate never lengthens the longest recording.
pub proof fn lemma_max_duration_shrinks_with_rate(slow: ConfigView, fast: ConfigView)
    requires
        slow.valid(),
        fast.valid(),
        slow.max_file_size_bytes == fast.max_file_size_bytes,
        slow.channels == fast.channels,
        slow.sample_rate <= fast.sample_rate,
    ensures
        slow.max_recording_nanos() >= fast.max_recording_nanos(),
{
    lemma_bytes_per_second_bounds(slow);
    assert(slow.bytes_per_second() <= fast.bytes_per_second()) by (nonlinear_arith)
        requires
            slow.sample_rate <= fast.sample_rate,
            slow.channels == fast.channels,
            slow.bytes_per_second() == slow.sample_rate * slow.channels * 4,
            fast.bytes_per_second() == fast.sample_rate * fast.channels * 4,
    ;
    lemma_faster_fills_sooner(slow, fast);
}

/// More channels never lengthen the longest recording.
pub proof fn lemma_max_duration_shrinks_with_channels(few: ConfigView, many: ConfigView)
    requires
        few.valid(),
        many.valid(),
        few.max_file_size_bytes == many.max_file_size_bytes,
        few.sample_rate == many.sample_rate,
        few.channels <= many.channels,
    ensures
        few.max_recording_nanos() >= many.max_recording_nanos(),
{
    lemma_bytes_per_second_bounds(few);
    assert(few.bytes_per_second() <= many.bytes_per_second()) by (nonlinear_arith)
        requires
            few.channels <= many.channels,
            few.sample_rate == many.sample_rate,
            few.bytes_per_second() == few.sample_rate * few.channels * 4,
            many.bytes_per_second() == many.sample_rate * many.channels * 4,
    ;
    lemma_faster_fills_sooner(few, many);
}

/// Of two configurations with the same size limit, the one that stores more
/// bytes per second has the shorter longest recording, or the same.
proof fn lemma_faster_fills_sooner(slow: ConfigView, fast: ConfigView)
    requires
        slow.valid(),
        fast.valid(),
        slow.max_file_size_bytes == fast.max_file_size_bytes,
        slow.bytes_per_second() <= fast.bytes_per_second(),
    ensures
        slow.max_recording_nanos() >= fast.max_recording_nanos(),
{
    let limit: int = slow.max_recording_nanos();
    lemma_max_duration_is_exact(slow, limit);
    lemma_max_duration_is_exact(fast, limit);
    assert(limit * fast.bytes_per_second() >= limit * slow.bytes_per_second())
        by (nonlinear_arith)
        requires
            limit >= 1,
            slow.bytes_per_second() <= fast.bytes_per_second(),
    ;
}

/// A valid configuration stores at least four bytes per second, and fewer
/// than two to the power of fifty.
pub proof fn lemma_bytes_per_second_bounds(config: ConfigView)
    requires
        config.valid(),
    ensures
        4 <= config.bytes_per_second() <= 0xffff_ffff * 0xffff * 4,
{
    let rate: int = config.sample_rate as int;
    let channels: int = config.channels as int;
    assert(1 <= rate * channels <= 0xffff_ffff * 0xffff) by (nonlinear_arith)
        requires
            1 <= rate <= 0xffff_ffff,
            1 <= channels <= 0xffff,
    ;
}

impl Clone for Config {
    fn clone(&self) -> (copy: Config)
        ensures
            copy@ == self@,
    {
        Config {
            api_endpoint: self.api_endpoint.clone(),
            sample_rate: self.sample_rate,
            channels: self.channels,
            max_file_size_bytes: self.max_file_size_bytes,
            show_remove_api_key_button: self.show_remove_api_key_button,
            api_key: match &self.api_key {
                Some(key) => Some(key.clone()),
                None => None,
            },
        }
    }
}

impl Default for Config {
    fn default() -> (config: Config)
        ensures
            config@ == default_config(),
    {
        Config {
            api_endpoint: "https://api.groq.com/openai/v1/audio/transcriptions".to_string(),
            sample_rate: 44100,
            channels: 1,
            max_file_size_bytes: 26_214_400,
            show_remove_api_key_button: false,
            api_key: None,
        }
    }
}

impl Config {
    /// The configuration at startup, given what a lookup in the credential
    /// store has brought: the defaults, with the stored key as credential if
    /// it has the shape of an API key. A store that holds no key, or one of
    /// another shape, leaves the session without a credential. A lookup that
    /// failed is not passed over: its error is handed back, and no
    /// configuration is made.
    pub fn load(lookup: Result<Option<String>, SessionError>) -> (loaded: Result<
        Config,
        SessionError,
    >)
        ensures
            match lookup {
                Ok(stored) => {
                    &&& loaded matches Ok(config)
                    &&& config@ == (ConfigView { api_key: usable_key(stored), ..default_config() })
                },
                Err(failure) => {
                    &&& loaded matches Err(surfaced)
                    &&& surfaced@ == failure@
                },
            },
    {
        match lookup {
            Ok(stored) => {
                let mut config: Config = Config::default();
                match stored {
                    Some(key) => {
                        if Config::is_valid_api_key(key.as_str()) {
                            config.api_key = Some(key);
                        }
                    },
                    None => {},
                }
                Ok(config)
            },
            Err(failure) => Err(failure),
        }
    }

    /// What a lookup in the credential store has brought, given the store's
    /// reply: the key; no key, when the store holds no entry; the store's
    /// failure in any other case.
    pub fn get_api_key(reply: Result<String, StoreFailure>) -> (lookup: Result<
        Option<String>,
        SessionError,
    >)
        ensures
            lookup_text(lookup) == match reply {
                Ok(key) => Ok(Some(key@)),
                Err(failure) => if failure.no_entry {
                    Ok(None)
                } else {
                    Err(SessionErrorView::CredentialStore(failure.message@))
                },
            },
    {
        match reply {
            Ok(key) => Ok(Some(key)),
            Err(failure) => if failure.no_entry {
                Ok(None)
            } else {
                Err(SessionError::CredentialStore(failure.message))
            },
        }
    }

    /// Whether a key was stored in the credential store, given the store's
    /// reply: any failure of the store is an error.
    pub fn set_api_key(reply: Result<(), StoreFailure>) -> (stored: Result<(), SessionError>)
        ensures
            unit_result(stored) == match reply {
                Ok(_) => Ok(()),
                Err(failure) => Err(SessionErrorView::CredentialStore(failure.message@)),
            },
    {
        match reply {
            Ok(_) => Ok(()),
            Err(failure) => Err(SessionError::CredentialStore(failure.message)),
        }
    }

    /// Whether the credential store is rid of the key, given the store's
    /// reply: it is when the entry was deleted and when there was none.
    pub fn remove_api_key(reply: Result<(), StoreFailure>) -> (removed: Result<(), SessionError>)
        ensures
            unit_result(removed) == match reply {
                Ok(_) => Ok(()),
                Err(failure) => if failure.no_entry {
                    Ok(())
                } else {
                    Err(SessionErrorView::CredentialStore(failure.message@))
                },
            },
    {
        match reply {
            Ok(_) => Ok(()),
            Err(failure) => if failure.no_entry {
                Ok(())
            } else {
                Err(SessionError::CredentialStore(failure.message))
            },
        }
    }

    /// Whether rate, channel count and size limit are all positive.
    pub fn is_valid(&self) -> (valid: bool)
        ensures
            valid == self@.valid(),
    {
        self.sample_rate > 0 && self.channels > 0 && self.max_file_size_bytes > 0
    }

    /// Bytes that one second of audio occupies.
    pub fn bytes_per_second(&self) -> (rate: u64)
        requires
            self@.valid(),
        ensures
            rate == self@.bytes_per_second(),
            rate >= 4,
    {
        proof {
            lemma_bytes_per_second_bounds(self@);
        }
        let rate: u64 = self.sample_rate as u64;
        let channels: u64 = self.channels as u64;
        assert(rate * channels <= 0xffff_ffff * 0xffff) by (nonlinear_arith)
            requires
                rate <= 0xffff_ffff,
                channels <= 0xffff,
        ;
        rate * channels * BYTES_PER_SAMPLE
    }

    /// The longest recording that fits in the size limit, in seconds, with no
    /// rounding.
    pub fn max_recording_seconds(&self) -> (seconds: Seconds)
        requires
            self@.valid(),
        ensures
            seconds == self@.max_recording_seconds(),
            seconds.numerator == self.max_file_size_bytes,
            seconds.denominator == self@.bytes_per_second(),
            seconds.denominator > 0,
    {
        Seconds {
            numerator: self.max_file_size_bytes as u64,
            denominator: self.bytes_per_second(),
        }
    }

    /// The longest recording that fits in the size limit, in nanoseconds,
    /// rounded up to the nanosecond. It is positive, and a recording has
    /// filled the size limit exactly when it has run that long.
    pub fn max_recording_duration(&self) -> (nanos: u128)
        requires
            self@.valid(),
        ensures
            nanos == self@.max_recording_nanos(),
            nanos >= 1,
            (nanos - 1) * self@.bytes_per_second() < self.max_file_size_bytes * NANOS_PER_SECOND
                <= nanos * self@.bytes_per_second(),
    {
        let rate: u128 = self.bytes_per_second() as u128;
        let size: u128 = self.max_file_size_bytes as u128;
        proof {
            let limit: int = self@.max_recording_nanos();
            lemma_max_duration_is_exact(self@, limit);
            lemma_max_duration_is_exact(self@, limit - 1);
        }
        (size * NANOS_PER_SECOND + rate - 1) / rate
    }

    /// Whether `api_key` has the shape of an API key.
    pub fn is_valid_api_key(api_key: &str) -> (valid: bool)
        ensures
            valid == is_api_key(api_key@),
    {
        let bytes: &[u8] = api_key.as_bytes();
        if bytes.len() < MIN_API_KEY_BYTES {
            return false;
        }
        let valid: bool = bytes[0] == 0x67u8 && bytes[1] == 0x73u8 && bytes[2] == 0x6bu8
            && bytes[3] == 0x5fu8;
        proof {
            let prefix: Seq<u8> = bytes@.subrange(0, 4);
            if valid {
                assert(prefix =~= api_key_prefix());
            } else {
                assert(prefix[0] == bytes@[0] && prefix[1] == bytes@[1] && prefix[2] == bytes@[2]
                    && prefix[3] == bytes@[3]);
                assert(api_key_prefix()[0] == 0x67u8 && api_key_prefix()[1] == 0x73u8
                    && api_key_prefix()[2] == 0x6bu8 && api_key_prefix()[3] == 0x5fu8);
            }
        }
        valid
    }
}

} // verus!
