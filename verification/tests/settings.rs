use lake::config::{required, var_i64, var_usize, Env, EnvVars, LimitVars, Limits, WEEK};
use lake::text::{parse_i64, parse_usize};

fn limit_vars() -> LimitVars {
    LimitVars {
        storage_limit_bytes: None,
        class_a_limit: None,
        class_b_limit: None,
        guard_ratio_reads: true,
        max_upload_bytes: None,
        ttl_seconds: None,
        max_downloads: None,
    }
}

fn env_vars() -> EnvVars {
    EnvVars {
        account_id: Some("acc".into()),
        endpoint: None,
        access_key_id: Some("ak".into()),
        secret_access_key: Some("sk".into()),
        bucket: Some("b".into()),
        region: None,
        listen_addr: None,
        db_path: None,
        base_url: None,
        limits: limit_vars(),
    }
}

#[test]
fn limits_have_defaults() {
    let limits = Limits::from_env(&limit_vars()).unwrap();
    assert_eq!(limits.storage_bytes, 10_000_000_000);
    assert_eq!(limits.class_a_ops, 1_000_000);
    assert_eq!(limits.class_b_ops, 10_000_000);
    assert_eq!(limits.max_upload_bytes, 100_000_000);
    assert_eq!(limits.ttl_seconds, 7 * 24 * 60 * 60);
    assert_eq!(limits.max_downloads, 20);
    assert_eq!(WEEK, 7 * 24 * 60 * 60);
}

#[test]
fn limits_are_set() {
    let mut vars = limit_vars();
    vars.storage_limit_bytes = Some("1".into());
    vars.class_a_limit = Some("+2".into());
    vars.class_b_limit = Some("-3".into());
    vars.max_upload_bytes = Some("4".into());
    vars.ttl_seconds = Some("5".into());
    vars.max_downloads = Some("006".into());
    let limits = Limits::from_env(&vars).unwrap();
    assert_eq!(
        (limits.storage_bytes, limits.class_a_ops, limits.class_b_ops),
        (1, 2, -3)
    );
    assert_eq!(
        (limits.max_upload_bytes, limits.ttl_seconds, limits.max_downloads),
        (4, 5, 6)
    );
}

#[test]
fn first_bad_limit_is_reported() {
    let mut vars = limit_vars();
    vars.max_downloads = Some("many".into());
    assert_eq!(Limits::from_env(&vars).unwrap_err(), "MAX_DOWNLOADS must be an integer");
    vars.ttl_seconds = Some("".into());
    assert_eq!(Limits::from_env(&vars).unwrap_err(), "TTL_SECONDS must be an integer");
    vars.max_upload_bytes = Some("-1".into());
    assert_eq!(Limits::from_env(&vars).unwrap_err(), "MAX_UPLOAD_BYTES must be an integer");
    vars.guard_ratio_reads = false;
    assert_eq!(Limits::from_env(&vars).unwrap_err(), "LIMIT_GUARD_RATIO must be a number");
    vars.class_b_limit = Some("1e3".into());
    assert_eq!(Limits::from_env(&vars).unwrap_err(), "CLASS_B_LIMIT must be an integer");
    vars.class_a_limit = Some(" 1".into());
    assert_eq!(Limits::from_env(&vars).unwrap_err(), "CLASS_A_LIMIT must be an integer");
    vars.storage_limit_bytes = Some("9223372036854775808".into());
    assert_eq!(Limits::from_env(&vars).unwrap_err(), "STORAGE_LIMIT_BYTES must be an integer");
}

#[test]
fn environment_has_defaults() {
    let env = Env::from_env(env_vars()).unwrap();
    assert_eq!(env.access_key_id, "ak");
    assert_eq!(env.secret_access_key, "sk");
    assert_eq!(env.bucket, "b");
    assert_eq!(env.endpoint, "https://acc.r2.cloudflarestorage.com");
    assert_eq!(env.region, "auto");
    assert_eq!(env.listen_addr, "0.0.0.0:3000");
    assert_eq!(env.db_path, "lake.sqlite3");
    assert_eq!(env.base_url, None);
}

#[test]
fn environment_is_set() {
    let mut vars = env_vars();
    vars.endpoint = Some("http://e".into());
    vars.region = Some("r".into());
    vars.listen_addr = Some("l".into());
    vars.db_path = Some("d".into());
    vars.base_url = Some("https://share.example//".into());
    let env = Env::from_env(vars).unwrap();
    assert_eq!(env.endpoint, "http://e");
    assert_eq!(env.region, "r");
    assert_eq!(env.listen_addr, "l");
    assert_eq!(env.db_path, "d");
    assert_eq!(env.base_url.as_deref(), Some("https://share.example"));
    let mut vars = env_vars();
    vars.base_url = Some("//".into());
    assert_eq!(Env::from_env(vars).ok().unwrap().base_url.as_deref(), Some(""));
}

#[test]
fn first_missing_variable_is_reported() {
    let fault = |vars: EnvVars| Env::from_env(vars).err().unwrap();
    let mut vars = env_vars();
    vars.bucket = None;
    assert_eq!(fault(vars), "R2_BUCKET is required");
    let mut vars = env_vars();
    vars.bucket = None;
    vars.secret_access_key = None;
    assert_eq!(fault(vars), "R2_SECRET_ACCESS_KEY is required");
    let mut vars = env_vars();
    vars.secret_access_key = None;
    vars.access_key_id = None;
    assert_eq!(fault(vars), "R2_ACCESS_KEY_ID is required");
    let mut vars = env_vars();
    vars.access_key_id = None;
    vars.account_id = None;
    assert_eq!(fault(vars), "R2_ACCOUNT_ID is required");
    let mut vars = env_vars();
    vars.limits.ttl_seconds = Some("x".into());
    assert_eq!(fault(vars), "TTL_SECONDS must be an integer");
}

#[test]
fn single_variables() {
    assert_eq!(required("X", Some("v".into())).unwrap(), "v");
    assert_eq!(required("X", None).unwrap_err(), "X is required");
    assert_eq!(var_i64("X", &None, 3).unwrap(), 3);
    assert_eq!(var_i64("X", &Some("-3".into()), 0).unwrap(), -3);
    assert_eq!(var_i64("X", &Some("x".into()), 0).unwrap_err(), "X must be an integer");
    assert_eq!(var_usize("X", &None, 3).unwrap(), 3);
    assert_eq!(var_usize("X", &Some("-3".into()), 0).unwrap_err(), "X must be an integer");
}

#[test]
fn integers_are_read_as_std_reads_them() {
    let texts = [
        "0", "7", "+7", "-7", "-0", "+0", "007", "", "+", "-", "+-1", "--1", "1_0", "0x1", " 1",
        "9223372036854775807", "9223372036854775808", "-9223372036854775808",
        "-9223372036854775809", "18446744073709551615", "18446744073709551616",
        "99999999999999999999999999999999999999999999999", "\u{0663}",
    ];
    for text in texts {
        assert_eq!(parse_i64(text), text.parse::<i64>().ok());
        assert_eq!(parse_usize(text), text.parse::<usize>().ok());
    }
}
