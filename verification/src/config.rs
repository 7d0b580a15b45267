//! What the service is set up with.

use vstd::prelude::*;
use crate::text;

verus! {

/// Seven days in seconds.
pub const WEEK: i64 = 604_800;

/// Where the service stops short of its limits: the bytes it will store, and the
/// class A and class B operations it will spend in a month.
#[derive(Clone, Copy, Debug)]
pub struct Guards {
    pub storage: i64,
    pub class_a: i64,
    pub class_b: i64,
}

/// What the service may use up, and what it allows a file.
#[derive(Debug)]
pub struct Limits {
    pub storage_bytes: i64,
    pub class_a_ops: i64,
    pub class_b_ops: i64,
    pub max_upload_bytes: usize,
    pub ttl_seconds: i64,
    pub max_downloads: i64,
}

/// The variables that set the limits, where they are set.
pub struct LimitVars {
    /// `STORAGE_LIMIT_BYTES`
    pub storage_limit_bytes: Option<String>,
    /// `CLASS_A_LIMIT`
    pub class_a_limit: Option<String>,
    /// `CLASS_B_LIMIT`
    pub class_b_limit: Option<String>,
    /// Whether `LIMIT_GUARD_RATIO`, if it is set, reads as a number.
    pub guard_ratio_reads: bool,
    /// `MAX_UPLOAD_BYTES`
    pub max_upload_bytes: Option<String>,
    /// `TTL_SECONDS`
    pub ttl_seconds: Option<String>,
    /// `MAX_DOWNLOADS`
    pub max_downloads: Option<String>,
}

/// The variables that set the service up, where they are set.
pub struct EnvVars {
    /// `R2_ACCOUNT_ID`
    pub account_id: Option<String>,
    /// `R2_ENDPOINT`
    pub endpoint: Option<String>,
    /// `R2_ACCESS_KEY_ID`
    pub access_key_id: Option<String>,
    /// `R2_SECRET_ACCESS_KEY`
    pub secret_access_key: Option<String>,
    /// `R2_BUCKET`
    pub bucket: Option<String>,
    /// `R2_REGION`
    pub region: Option<String>,
    /// `LISTEN_ADDR`
    pub listen_addr: Option<String>,
    /// `DB_PATH`
    pub db_path: Option<String>,
    /// `BASE_URL`
    pub base_url: Option<String>,
    pub limits: LimitVars,
}

/// The service's configuration.
pub struct Env {
    pub access_key_id: String,
    pub secret_access_key: String,
    pub bucket: String,
    pub endpoint: String,
    pub region: String,
    pub listen_addr: String,
    pub db_path: String,
    pub base_url: Option<String>,
    pub limits: Limits,
}

pub open spec fn not_set(name: Seq<char>) -> Seq<char> {
    name + " is required"@
}

pub open spec fn not_an_integer(name: Seq<char>) -> Seq<char> {
    name + " must be an integer"@
}

/// A setting's integer: the default if it is not set, and none if what it is set
/// to does not read as an integer from `low` to `high`.
pub open spec fn setting(
    value: Option<Seq<char>>,
    default: int,
    signed: bool,
    low: int,
    high: int,
) -> Option<int> {
    match value {
        None => Some(default),
        Some(s) => match text::integer_of(s, signed) {
            Some(n) => if low <= n <= high {
                Some(n)
            } else {
                None
            },
            None => None,
        },
    }
}

pub open spec fn setting_i64(value: Option<Seq<char>>, default: int) -> Option<int> {
    setting(value, default, true, i64::MIN as int, i64::MAX as int)
}

pub open spec fn setting_usize(value: Option<Seq<char>>, default: int) -> Option<int> {
    setting(value, default, false, 0, usize::MAX as int)
}

/// A variable that has to be set.
pub fn required(name: &str, value: Option<String>) -> (r: Result<String, String>)
    ensures
        match r {
            Ok(s) => value == Some(s),
            Err(message) => value is None && message@ == not_set(name@),
        },
{
    match value {
        Some(s) => Ok(s),
        None => {
            let mut message = name.to_string();
            message.append(" is required");
            Err(message)
        },
    }
}

fn integer_expected(name: &str) -> (message: String)
    ensures
        message@ == not_an_integer(name@),
{
    let mut message = name.to_string();
    message.append(" must be an integer");
    message
}

/// A variable that holds a signed integer.
pub fn var_i64(name: &str, value: &Option<String>, default: i64) -> (r: Result<i64, String>)
    ensures
        match r {
            Ok(n) => setting_i64(value.deep_view(), default as int) == Some(n as int),
            Err(message) => {
                &&& setting_i64(value.deep_view(), default as int) is None
                &&& message@ == not_an_integer(name@)
            },
        },
{
    match value {
        None => Ok(default),
        Some(s) => match text::parse_i64(s.as_str()) {
            Some(n) => Ok(n),
            None => Err(integer_expected(name)),
        },
    }
}

/// A variable that holds an unsigned integer.
pub fn var_usize(name: &str, value: &Option<String>, default: usize) -> (r: Result<usize, String>)
    ensures
        match r {
            Ok(n) => setting_usize(value.deep_view(), default as int) == Some(n as int),
            Err(message) => {
                &&& setting_usize(value.deep_view(), default as int) is None
                &&& message@ == not_an_integer(name@)
            },
        },
{
    match value {
        None => Ok(default),
        Some(s) => match text::parse_usize(s.as_str()) {
            Some(n) => Ok(n),
            None => Err(integer_expected(name)),
        },
    }
}

impl LimitVars {
    pub open spec fn storage(self) -> Option<int> {
        setting_i64(self.storage_limit_bytes.deep_view(), 10_000_000_000)
    }

    pub open spec fn class_a(self) -> Option<int> {
        setting_i64(self.class_a_limit.deep_view(), 1_000_000)
    }

    pub open spec fn class_b(self) -> Option<int> {
        setting_i64(self.class_b_limit.deep_view(), 10_000_000)
    }

    pub open spec fn upload(self) -> Option<int> {
        setting_usize(self.max_upload_bytes.deep_view(), 100_000_000)
    }

    pub open spec fn ttl(self) -> Option<int> {
        setting_i64(self.ttl_seconds.deep_view(), WEEK as int)
    }

    pub open spec fn downloads(self) -> Option<int> {
        setting_i64(self.max_downloads.deep_view(), 20)
    }

    /// What is wrong with the settings: the first of them that does not read.
    pub open spec fn fault(self) -> Option<Seq<char>> {
        if self.storage() is None {
            Some(not_an_integer("STORAGE_LIMIT_BYTES"@))
        } else if self.class_a() is None {
            Some(not_an_integer("CLASS_A_LIMIT"@))
        } else if self.class_b() is None {
            Some(not_an_integer("CLASS_B_LIMIT"@))
        } else if !self.guard_ratio_reads {
            Some("LIMIT_GUARD_RATIO must be a number"@)
        } else if self.upload() is None {
            Some(not_an_integer("MAX_UPLOAD_BYTES"@))
        } else if self.ttl() is None {
            Some(not_an_integer("TTL_SECONDS"@))
        } else if self.downloads() is None {
            Some(not_an_integer("MAX_DOWNLOADS"@))
        } else {
            None
        }
    }
}

impl Limits {
    /// Whether these are the limits that the variables set.
    pub open spec fn set_by(self, vars: LimitVars) -> bool {
        &&& vars.storage() == Some(self.storage_bytes as int)
        &&& vars.class_a() == Some(self.class_a_ops as int)
        &&& vars.class_b() == Some(self.class_b_ops as int)
        &&& vars.upload() == Some(self.max_upload_bytes as int)
        &&& vars.ttl() == Some(self.ttl_seconds as int)
        &&& vars.downloads() == Some(self.max_downloads as int)
    }

    pub fn from_env(vars: &LimitVars) -> (r: Result<Self, String>)
        ensures
            match r {
                Ok(limits) => vars.fault() is None && limits.set_by(*vars),
                Err(message) => vars.fault() == Some(message@),
            },
    {
        let storage_bytes: i64 = var_i64(
            "STORAGE_LIMIT_BYTES",
            &vars.storage_limit_bytes,
            10_000_000_000,
        )?;
        let class_a_ops: i64 = var_i64("CLASS_A_LIMIT", &vars.class_a_limit, 1_000_000)?;
        let class_b_ops: i64 = var_i64("CLASS_B_LIMIT", &vars.class_b_limit, 10_000_000)?;
        if !vars.guard_ratio_reads {
            return Err("LIMIT_GUARD_RATIO must be a number".to_string());
        }
        let max_upload_bytes: usize = var_usize(
            "MAX_UPLOAD_BYTES",
            &vars.max_upload_bytes,
            100_000_000,
        )?;
        let ttl_seconds: i64 = var_i64("TTL_SECONDS", &vars.ttl_seconds, WEEK)?;
        let max_downloads: i64 = var_i64("MAX_DOWNLOADS", &vars.max_downloads, 20)?;
        Ok(
            Limits {
                storage_bytes,
                class_a_ops,
                class_b_ops,
                max_upload_bytes,
                ttl_seconds,
                max_downloads,
            },
        )
    }
}

/// The object store's address for an account.
pub open spec fn account_endpoint(account_id: Seq<char>) -> Seq<char> {
    "https://"@ + account_id + ".r2.cloudflarestorage.com"@
}

/// `s` without the slashes at its end.
pub open spec fn without_slashes(s: Seq<char>) -> Seq<char>
    decreases s.len(),
{
    if s.len() > 0 && s.last() == '/' {
        without_slashes(s.drop_last())
    } else {
        s
    }
}

/// A base URL, as it is configured, does not end in a slash: it is the one that was
/// set up to its last character that is not a slash.
pub proof fn law_base_url_has_no_slash_at_its_end(url: Seq<char>)
    ensures
        ({
            let base = without_slashes(url);
            &&& base.len() == 0 || base.last() != '/'
            &&& base.len() <= url.len()
            &&& base == url.take(base.len() as int)
            &&& forall|i: int| base.len() <= i < url.len() ==> url[i] == '/'
        }),
    decreases url.len(),
{
    if url.len() > 0 && url.last() == '/' {
        law_base_url_has_no_slash_at_its_end(url.drop_last());
        let base = without_slashes(url);
        assert(url.drop_last().take(base.len() as int) =~= url.take(base.len() as int));
        assert forall|i: int| base.len() <= i < url.len() implies url[i] == '/' by {
            if i < url.len() - 1 {
                assert(url.drop_last()[i] == '/');
            }
        }
    } else {
        assert(url.take(url.len() as int) =~= url);
    }
}

fn strip_slashes(s: &str) -> (r: String)
    ensures
        r@ == without_slashes(s@),
{
    let mut n: usize = s.unicode_len();
    proof {
        assert(s@.take(n as int) =~= s@);
    }
    while n > 0 && s.get_char(n - 1) == '/'
        invariant
            n <= s@.len(),
            without_slashes(s@) == without_slashes(s@.take(n as int)),
        decreases n,
    {
        proof {
            assert(s@.take(n as int).drop_last() =~= s@.take(n - 1));
        }
        n = n - 1;
    }
    s.substring_char(0, n).to_string()
}

fn or_default(value: Option<String>, default: &str) -> (r: String)
    ensures
        r@ == value_or(value.deep_view(), default@),
{
    match value {
        Some(s) => s,
        None => default.to_string(),
    }
}

pub open spec fn value_or(value: Option<Seq<char>>, default: Seq<char>) -> Seq<char> {
    match value {
        Some(s) => s,
        None => default,
    }
}

impl EnvVars {
    /// What is wrong with the settings: the first required one that is not set, or
    /// else the first limit that does not read.
    pub open spec fn fault(self) -> Option<Seq<char>> {
        if self.account_id is None {
            Some(not_set("R2_ACCOUNT_ID"@))
        } else if self.access_key_id is None {
            Some(not_set("R2_ACCESS_KEY_ID"@))
        } else if self.secret_access_key is None {
            Some(not_set("R2_SECRET_ACCESS_KEY"@))
        } else if self.bucket is None {
            Some(not_set("R2_BUCKET"@))
        } else {
            self.limits.fault()
        }
    }
}

impl Env {
    /// Whether this is the configuration that the variables set.
    pub open spec fn set_by(self, vars: EnvVars) -> bool {
        &&& vars.access_key_id.deep_view() == Some(self.access_key_id@)
        &&& vars.secret_access_key.deep_view() == Some(self.secret_access_key@)
        &&& vars.bucket.deep_view() == Some(self.bucket@)
        &&& self.endpoint@ == value_or(
            vars.endpoint.deep_view(),
            account_endpoint(vars.account_id.deep_view()->0),
        )
        &&& self.region@ == value_or(vars.region.deep_view(), "auto"@)
        &&& self.listen_addr@ == value_or(vars.listen_addr.deep_view(), "0.0.0.0:3000"@)
        &&& self.db_path@ == value_or(vars.db_path.deep_view(), "lake.sqlite3"@)
        &&& self.base_url.deep_view() == (match vars.base_url.deep_view() {
            Some(url) => Some(without_slashes(url)),
            None => None,
        })
        &&& self.limits.set_by(vars.limits)
    }

    pub fn from_env(vars: EnvVars) -> (r: Result<Self, String>)
        ensures
            match r {
                Ok(env) => vars.fault() is None && env.set_by(vars),
                Err(message) => vars.fault() == Some(message@),
            },
    {
        let account_id = required("R2_ACCOUNT_ID", vars.account_id)?;
        let mut endpoint = "https://".to_string();
        endpoint.append(account_id.as_str());
        endpoint.append(".r2.cloudflarestorage.com");
        let endpoint = or_default(vars.endpoint, endpoint.as_str());
        let access_key_id = required("R2_ACCESS_KEY_ID", vars.access_key_id)?;
        let secret_access_key = required("R2_SECRET_ACCESS_KEY", vars.secret_access_key)?;
        let bucket = required("R2_BUCKET", vars.bucket)?;
        let base_url = match vars.base_url {
            Some(url) => Some(strip_slashes(url.as_str())),
            None => None,
        };
        let limits = Limits::from_env(&vars.limits)?;
        Ok(
            Env {
                access_key_id,
                secret_access_key,
                bucket,
                endpoint,
                region: or_default(vars.region, "auto"),
                listen_addr: or_default(vars.listen_addr, "0.0.0.0:3000"),
                db_path: or_default(vars.db_path, "lake.sqlite3"),
                base_url,
                limits,
            },
        )
    }
}

} // verus!
