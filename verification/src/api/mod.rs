//! Account data as the remote service reports it, and its normalised,
//! display-safe form.

use vstd::prelude::*;

pub mod cache;
pub mod client;
pub mod config;
pub mod display;

verus! {

/// Quotas at or above this value mean that the account has no effective limit.
pub const UNLIMITED_THRESHOLD: i64 = 100_000_000_000;

/// Number of quota units that make one unit of the display currency.
pub const UNITS_PER_DOLLAR: u64 = 500_000;

/// Endpoint that is queried when nothing else is configured.
pub const DEFAULT_API_URL: &'static str = "https://api.ikuncode.cc/api/user/self";

/// Effective settings for one balance lookup.
#[derive(Clone, Debug, PartialEq, Eq)]
pub struct ApiConfig {
    pub enabled: bool,
    pub api_key: String,
    /// The complete endpoint URL, not a base URL.
    pub api_url: String,
    /// Account id that is passed through to the service as it is.
    pub user_id: Option<String>,
}

/// The text of an optional string.
pub open spec fn text_of(s: Option<String>) -> Option<Seq<char>> {
    match s {
        Some(s) => Some(s@),
        None => None,
    }
}

/// An `ApiConfig` with its strings as sequences of characters.
pub struct ApiConfigView {
    pub enabled: bool,
    pub api_key: Seq<char>,
    pub api_url: Seq<char>,
    pub user_id: Option<Seq<char>>,
}

impl View for ApiConfig {
    type V = ApiConfigView;

    open spec fn view(&self) -> ApiConfigView {
        ApiConfigView {
            enabled: self.enabled,
            api_key: self.api_key@,
            api_url: self.api_url@,
            user_id: text_of(self.user_id),
        }
    }
}

impl Default for ApiConfig {
    fn default() -> (config: Self)
        ensures
            config@ == (ApiConfigView {
                enabled: false,
                api_key: Seq::<char>::empty(),
                api_url: DEFAULT_API_URL@,
                user_id: None,
            }),
    {
        ApiConfig {
            enabled: false,
            api_key: String::new(),
            api_url: DEFAULT_API_URL.to_owned(),
            user_id: None,
        }
    }
}

/// The counters of one account, in the opaque units of the remote service.
/// Either counter may be negative.
#[derive(Clone, Debug, PartialEq, Eq)]
pub struct UserData {
    pub quota: i64,
    pub used_quota: i64,
    pub request_count: i64,
    /// Name of the account's group; empty when the service names none.
    pub group: String,
}

/// The envelope in which the remote service wraps its answer.
#[derive(Clone, Debug, PartialEq, Eq)]
pub struct UserResponse {
    pub success: bool,
    pub data: Option<UserData>,
    pub message: Option<String>,
}

/// The share `part / whole` of a total, read as the percentage
/// `100 * part / whole`.
#[derive(Clone, Copy, Debug, PartialEq, Eq)]
pub struct Percentage {
    pub part: u64,
    pub whole: u64,
}

impl Percentage {
    /// The share is a fraction between nought and one, so the percentage lies
    /// between 0 and 100.
    pub open spec fn in_bounds(self) -> bool {
        0 < self.whole && self.part <= self.whole
    }

    /// Exactly 0 percent.
    pub open spec fn is_zero(self) -> bool {
        0 < self.whole && self.part == 0
    }

    /// Exactly 100 percent.
    pub open spec fn is_full(self) -> bool {
        0 < self.whole && self.part == self.whole
    }
}

/// A balance in display-ready form.
///
/// `remaining_units / UNITS_PER_DOLLAR` is the remaining amount in display
/// currency, and `percentage` the share of the quota that is left. Both are
/// exact. For an unlimited account `remaining_units` is 0: read
/// `is_unlimited` before `remaining_units`.
#[derive(Clone, Debug, PartialEq, Eq)]
pub struct BalanceData {
    pub quota: i64,
    pub used: i64,
    pub remaining_units: u64,
    pub percentage: Percentage,
    pub is_unlimited: bool,
    pub is_overused: bool,
    pub group: String,
}

/// `x`, cut off at `low` and at `high`.
pub open spec fn clamp(x: int, low: int, high: int) -> int {
    if x < low {
        low
    } else if x > high {
        high
    } else {
        x
    }
}

impl BalanceData {
    /// Quota that is left according to the raw counters; negative when more
    /// was used than allotted.
    pub open spec fn raw_remaining(data: UserData) -> int {
        data.quota - data.used_quota
    }

    /// The share of the quota that is left, for an account with a limit: what
    /// is left of the quota, cut off at nothing and at all of it. Without a
    /// positive quota the share is nought.
    pub open spec fn remaining_share(data: UserData) -> Percentage {
        if data.quota <= 0 {
            Percentage { part: 0, whole: 1 }
        } else {
            Percentage {
                part: clamp(Self::raw_remaining(data), 0, data.quota as int) as u64,
                whole: data.quota as u64,
            }
        }
    }

    /// The display-ready form of `data`.
    pub open spec fn normalized(data: UserData) -> BalanceData {
        let unlimited = data.quota >= UNLIMITED_THRESHOLD;
        BalanceData {
            quota: data.quota,
            used: data.used_quota,
            remaining_units: if unlimited || Self::raw_remaining(data) <= 0 {
                0
            } else {
                Self::raw_remaining(data) as u64
            },
            percentage: if unlimited {
                Percentage { part: 1, whole: 1 }
            } else {
                Self::remaining_share(data)
            },
            is_unlimited: unlimited,
            is_overused: data.used_quota > data.quota && !unlimited,
            group: data.group,
        }
    }

    /// The counters that the balance records.
    pub open spec fn counters(self) -> UserData {
        UserData { quota: self.quota, used_quota: self.used, request_count: 0, group: self.group }
    }

    /// The balance is in normal form: its flags, its remaining amount and its
    /// percentage are those that belong to the counters it records.
    pub open spec fn wf(self) -> bool {
        self == Self::normalized(self.counters())
    }

    /// Normalises raw counters. Total: every pair of counters, negative ones
    /// included, has a display-ready form.
    pub fn from_user_data(data: &UserData) -> (snapshot: Self)
        ensures
            snapshot == Self::normalized(*data),
            snapshot.wf(),
            data.quota >= UNLIMITED_THRESHOLD ==> snapshot.is_unlimited && snapshot.remaining_units
                == 0 && snapshot.percentage.is_full(),
            data.quota < UNLIMITED_THRESHOLD && data.used_quota > data.quota
                ==> snapshot.is_overused && snapshot.remaining_units == 0,
            data.quota < UNLIMITED_THRESHOLD ==> snapshot.percentage.in_bounds(),
    {
        let is_unlimited = data.quota >= UNLIMITED_THRESHOLD;
        let is_overused = data.used_quota > data.quota && !is_unlimited;
        let raw_remaining: i128 = data.quota as i128 - data.used_quota as i128;
        let remaining_units: u64 = if is_unlimited || raw_remaining <= 0 {
            0
        } else {
            raw_remaining as u64
        };
        let percentage = if is_unlimited {
            Percentage { part: 1, whole: 1 }
        } else if data.quota <= 0 {
            Percentage { part: 0, whole: 1 }
        } else {
            let whole: u64 = data.quota as u64;
            let part: u64 = if raw_remaining <= 0 {
                0
            } else if raw_remaining >= data.quota as i128 {
                whole
            } else {
                raw_remaining as u64
            };
            Percentage { part, whole }
        };
        BalanceData {
            quota: data.quota,
            used: data.used_quota,
            remaining_units,
            percentage,
            is_unlimited,
            is_overused,
            group: data.group.clone(),
        }
    }

    /// The balance that a stored record stands for. The counters, the amount,
    /// the flags and the group are those of the record, as they are; the
    /// percentage is the share that belongs to the counters.
    pub open spec fn restored(
        quota: i64,
        used: i64,
        remaining_units: u64,
        is_unlimited: bool,
        is_overused: bool,
        group: String,
    ) -> BalanceData {
        BalanceData {
            quota,
            used,
            remaining_units,
            percentage: Self::normalized(
                UserData { quota, used_quota: used, request_count: 0, group },
            ).percentage,
            is_unlimited,
            is_overused,
            group,
        }
    }

    /// Makes a balance of what a stored record holds. Nothing of the record is
    /// checked or mended: what was stored is what is shown.
    pub fn from_record(
        quota: i64,
        used: i64,
        remaining_units: u64,
        is_unlimited: bool,
        is_overused: bool,
        group: String,
    ) -> (balance: Self)
        ensures
            balance == Self::restored(quota, used, remaining_units, is_unlimited, is_overused, group),
    {
        let by_counters = Self::from_user_data(
            &UserData { quota, used_quota: used, request_count: 0, group },
        );
        BalanceData {
            quota,
            used,
            remaining_units,
            percentage: by_counters.percentage,
            is_unlimited,
            is_overused,
            group: by_counters.group,
        }
    }
}

/// A normalised balance that is stored and made of its record again is the
/// same balance.
pub proof fn lemma_record_gives_balance_back(balance: BalanceData)
    requires
        balance.wf(),
    ensures
        BalanceData::restored(
            balance.quota,
            balance.used,
            balance.remaining_units,
            balance.is_unlimited,
            balance.is_overused,
            balance.group,
        ) == balance,
{
}

/// An account whose quota reaches the threshold is unlimited, whatever it has
/// used: nothing is reported as remaining and the percentage is 100.
pub proof fn lemma_unlimited_account(data: UserData)
    requires
        data.quota >= UNLIMITED_THRESHOLD,
    ensures
        BalanceData::normalized(data).is_unlimited,
        !BalanceData::normalized(data).is_overused,
        BalanceData::normalized(data).remaining_units == 0,
        BalanceData::normalized(data).percentage.is_full(),
{
}

/// An account with a limit that has used more than its quota is overused,
/// and nothing remains.
pub proof fn lemma_overused_account(data: UserData)
    requires
        data.quota < UNLIMITED_THRESHOLD,
        data.used_quota > data.quota,
    ensures
        BalanceData::normalized(data).is_overused,
        !BalanceData::normalized(data).is_unlimited,
        BalanceData::normalized(data).remaining_units == 0,
        BalanceData::normalized(data).percentage.is_zero(),
{
}

/// The flags say exactly what the counters say: unlimited at or above the
/// threshold, overused when more was used than allotted and the account has a
/// limit. The two never hold together.
pub proof fn lemma_flags(data: UserData)
    ensures
        BalanceData::normalized(data).is_unlimited <==> data.quota >= UNLIMITED_THRESHOLD,
        BalanceData::normalized(data).is_overused <==> (data.used_quota > data.quota
            && data.quota < UNLIMITED_THRESHOLD),
        !(BalanceData::normalized(data).is_unlimited && BalanceData::normalized(data).is_overused),
{
}

/// For an account with a limit the percentage lies between 0 and 100, and the
/// remaining amount is the quota that is left, or nought where none is left.
pub proof fn lemma_limited_account_bounds(data: UserData)
    requires
        data.quota < UNLIMITED_THRESHOLD,
    ensures
        BalanceData::normalized(data).percentage.in_bounds(),
        BalanceData::normalized(data).remaining_units >= 0,
        data.quota - data.used_quota >= 0 ==> BalanceData::normalized(data).remaining_units
            == data.quota - data.used_quota,
        data.quota - data.used_quota < 0 ==> BalanceData::normalized(data).remaining_units == 0,
{
}

/// For an account with a limit and a positive quota the percentage is the
/// share of the quota that is left, cut off at 0 and at 100; without a
/// positive quota it is 0.
pub proof fn lemma_limited_account_percentage(data: UserData)
    requires
        data.quota < UNLIMITED_THRESHOLD,
    ensures
        data.quota <= 0 ==> BalanceData::normalized(data).percentage.is_zero(),
        data.quota > 0 ==> BalanceData::normalized(data).percentage.whole == data.quota,
        data.quota > 0 && 0 <= data.quota - data.used_quota <= data.quota
            ==> BalanceData::normalized(data).percentage.part == data.quota - data.used_quota,
        data.quota > 0 && data.quota - data.used_quota < 0
            ==> BalanceData::normalized(data).percentage.is_zero(),
        data.quota > 0 && data.quota - data.used_quota > data.quota
            ==> BalanceData::normalized(data).percentage.is_full(),
{
}

/// What holds of every balance in normal form.
pub proof fn lemma_normal_form(balance: BalanceData)
    requires
        balance.wf(),
    ensures
        balance.is_unlimited <==> balance.quota >= UNLIMITED_THRESHOLD,
        balance.is_overused <==> (balance.used > balance.quota && !balance.is_unlimited),
        balance.is_unlimited ==> balance.remaining_units == 0 && balance.percentage.is_full(),
        !balance.is_unlimited && balance.quota >= balance.used ==> balance.remaining_units
            == balance.quota - balance.used,
        !balance.is_unlimited && balance.quota < balance.used ==> balance.remaining_units == 0,
        balance.percentage.in_bounds(),
        !balance.is_unlimited && balance.quota <= 0 ==> balance.percentage.is_zero(),
{
}

/// Normalising gives a balance in normal form that records the counters it
/// was made from.
pub proof fn lemma_normalized_is_normal(data: UserData)
    ensures
        BalanceData::normalized(data).wf(),
        BalanceData::normalized(data).quota == data.quota,
        BalanceData::normalized(data).used == data.used_quota,
        BalanceData::normalized(data).group == data.group,
{
}

/// Normalising the same counters twice gives the same balance, field for
/// field: the balance is determined by the quota, the used quota and the
/// group, and by nothing else.
pub proof fn lemma_normalization_is_deterministic(first: UserData, second: UserData)
    requires
        first.quota == second.quota,
        first.used_quota == second.used_quota,
        first.group == second.group,
    ensures
        BalanceData::normalized(first) == BalanceData::normalized(second),
{
}

/// Normalising is idempotent: normalising the counters that a normalised
/// balance records gives that balance back.
pub proof fn lemma_normalization_is_idempotent(data: UserData)
    ensures
        BalanceData::normalized(BalanceData::normalized(data).counters()) == BalanceData::normalized(
            data,
        ),
{
}

} // verus!
