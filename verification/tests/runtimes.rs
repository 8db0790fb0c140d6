use daemon::error::DaemonError;
use daemon::mailpit::{MailpitRuntimeAdapter, RuntimeRecordPaths};
use daemon::mysql::{
    generated_password, mysql_init_script, mysql_string_literal, MysqlRuntimeAdapter,
    MysqlRuntimePaths,
};
use daemon::runtime::{
    cleanup_started_runtime_files, env_get, required_port, runtime_exited_before_readiness_error,
    ManagedResourceReadiness, ManagedResourceRuntimeContext, ProcessSpec, ReadinessCheck,
};
use daemon::timing::{duration_milliseconds, remaining_timeout, usize_as_u64, Span};

fn context(resource: &str, ports: &[(&str, u16)], env: &[(&str, &str)]) -> ManagedResourceRuntimeContext {
    ManagedResourceRuntimeContext {
        resource_name: resource.to_string(),
        track: "8.4".to_string(),
        artifact_path: "/pv/resources/mysql/8.4".to_string(),
        data_dir: "/pv/data/mysql/8.4".to_string(),
        ports: ports
            .iter()
            .map(|(name, port)| (name.to_string(), *port))
            .collect(),
        env: env
            .iter()
            .map(|(key, value)| (key.to_string(), value.to_string()))
            .collect(),
    }
}

fn mysql_paths() -> MysqlRuntimePaths {
    MysqlRuntimePaths {
        config_path: "/pv/run/resources/mysql-8.4.json".to_string(),
        log_path: "/pv/logs/mysql-8.4.log".to_string(),
        pid_path: "/pv/run/resources/mysql-8.4.pid".to_string(),
        metadata_path: "/pv/run/resources/mysql-8.4.meta".to_string(),
        socket_path: "/pv/run/resources/mysql-8.4.sock".to_string(),
        init_file_path: "/pv/run/resources/mysql-8.4.init.sql".to_string(),
    }
}

fn pretty(text: &[(&str, &str)], numbers: &[(&str, u64)]) -> String {
    let mut object = serde_json::Map::new();
    for (key, value) in text {
        object.insert(key.to_string(), serde_json::Value::String(value.to_string()));
    }
    for (key, value) in numbers {
        object.insert(key.to_string(), serde_json::Value::from(*value));
    }
    serde_json::to_string_pretty(&serde_json::Value::Object(object)).unwrap()
}

#[test]
fn mysql_string_literal_escapes_quotes_backslashes_and_controls() {
    assert_eq!(mysql_string_literal("plain"), "'plain'");
    assert_eq!(mysql_string_literal("it's"), "'it\\'s'");
    assert_eq!(mysql_string_literal("a\\b"), "'a\\\\b'");
    assert_eq!(mysql_string_literal("nul\0"), "'nul\\0'");
    assert_eq!(mysql_string_literal("l1\nl2\r"), "'l1\\nl2\\r'");
    assert_eq!(mysql_string_literal("ctrl\u{1a}z"), "'ctrl\\Zz'");
    assert_eq!(mysql_string_literal(""), "''");
}

#[test]
fn generated_password_is_lowercase_hex_of_the_bytes() {
    let bytes = [0x00, 0x01, 0x0f, 0x10, 0xab, 0xcd, 0xef, 0xff, 0x12, 0x34, 0x56, 0x78, 0x9a, 0xbc, 0xde, 0xf0];
    let password = generated_password(bytes);
    assert_eq!(password, "00010f10abcdefff123456789abcdef0");
    assert_eq!(password.len(), 32);
}

#[test]
fn mysql_init_script_creates_and_grants_the_admin() {
    let script = mysql_init_script("pv_root", "s'cret");
    assert_eq!(
        script,
        "CREATE USER IF NOT EXISTS 'pv_root'@'127.0.0.1' IDENTIFIED BY 's\\'cret';\n\
         ALTER USER 'pv_root'@'127.0.0.1' IDENTIFIED BY 's\\'cret';\n\
         GRANT ALL PRIVILEGES ON *.* TO 'pv_root'@'127.0.0.1' WITH GRANT OPTION;\n\
         FLUSH PRIVILEGES;\n"
    );
}

#[test]
fn mysql_admin_context_prefers_the_environment() {
    let adapter = MysqlRuntimeAdapter::new();
    let seeded = context("mysql", &[("mysql", 3307)], &[("username", "admin"), ("password", "pw")]);
    let admin = adapter.admin_context(&seeded, [7; 16]).unwrap();
    assert_eq!(admin.host, "127.0.0.1");
    assert_eq!(admin.port, 3307);
    assert_eq!(admin.username, "admin");
    assert_eq!(admin.password, "pw");

    let fresh = context("mysql", &[("mysql", 3306)], &[]);
    let admin = adapter.admin_context(&fresh, [0xab; 16]).unwrap();
    assert_eq!(admin.username, "pv_root");
    assert_eq!(admin.password, "ab".repeat(16));
}

#[test]
fn mysql_without_its_port_reports_the_missing_port() {
    let adapter = MysqlRuntimeAdapter::new();
    let missing = context("mysql", &[("other", 1)], &[]);
    match adapter.admin_context(&missing, [0; 16]) {
        Err(DaemonError::ManagedResourcePortMissing { resource, track, port }) => {
            assert_eq!(resource, "mysql");
            assert_eq!(track, "8.4");
            assert_eq!(port, "mysql");
        }
        _ => panic!("expected a missing port"),
    }
    assert!(adapter.build_process_spec(&missing, "mysqld".to_string(), mysql_paths(), [0; 16]).is_err());
    assert!(adapter.readiness(&missing, [0; 16]).is_err());
    assert!(adapter.runtime_config(&missing, &mysql_paths()).is_err());
}

#[test]
fn mysql_process_spec_runs_mysqld_on_its_port_and_socket() {
    let adapter = MysqlRuntimeAdapter::new();
    let ctx = context("mysql", &[("mysql", 3306)], &[("password", "pw")]);
    let (spec, init) = adapter
        .build_process_spec(&ctx, "/pv/resources/mysql/8.4/bin/mysqld".to_string(), mysql_paths(), [0; 16])
        .unwrap();
    assert_eq!(spec.name, "mysql-8.4");
    assert_eq!(spec.command, "/pv/resources/mysql/8.4/bin/mysqld");
    assert_eq!(
        spec.arguments,
        vec![
            "--no-defaults",
            "--datadir",
            "/pv/data/mysql/8.4",
            "--bind-address=127.0.0.1",
            "--port",
            "3306",
            "--socket",
            "/pv/run/resources/mysql-8.4.sock",
            "--init-file",
            "/pv/run/resources/mysql-8.4.init.sql",
        ]
    );
    assert_eq!(spec.config_path, "/pv/run/resources/mysql-8.4.json");
    assert_eq!(spec.pid_path, "/pv/run/resources/mysql-8.4.pid");
    assert_eq!(spec.resource_name, "mysql");
    assert_eq!(spec.track, "8.4");
    assert_eq!(init, mysql_init_script("pv_root", "pw"));
    assert_eq!(adapter.resource_name(), "mysql");
    let specs = adapter.port_specs();
    assert_eq!(specs.len(), 1);
    assert_eq!(specs[0].name, "mysql");
    assert_eq!(specs[0].preferred_port, 3306);
}

#[test]
fn mysql_readiness_pings_the_admin() {
    let adapter = MysqlRuntimeAdapter::new();
    let ctx = context("mysql", &[("mysql", 3310)], &[("username", "root"), ("password", "pw")]);
    match adapter.readiness(&ctx, [0; 16]).unwrap() {
        ManagedResourceReadiness::Async(check) => {
            assert_eq!(check.name, "mysql-admin");
            assert_eq!(check.check.port, 3310);
            assert_eq!(check.check.username, "root");
        }
        ManagedResourceReadiness::TcpHttp(_) => panic!("expected an adapter check"),
    }
}

#[test]
fn mysql_runtime_config_is_pretty_json_with_a_numeric_port() {
    let adapter = MysqlRuntimeAdapter::new();
    let ctx = context("mysql", &[("mysql", 3306)], &[]);
    let text = adapter.runtime_config(&ctx, &mysql_paths()).unwrap();
    assert_eq!(
        text,
        pretty(
            &[
                ("resource", "mysql"),
                ("track", "8.4"),
                ("data_dir", "/pv/data/mysql/8.4"),
                ("socket", "/pv/run/resources/mysql-8.4.sock"),
                ("init_file", "/pv/run/resources/mysql-8.4.init.sql"),
            ],
            &[("mysql_port", 3306)],
        )
    );
    assert!(text.contains("\"mysql_port\": 3306"));
}

#[test]
fn mailpit_runtime_serves_smtp_and_dashboard() {
    let adapter = MailpitRuntimeAdapter::new();
    let mut ctx = context("mailpit", &[("smtp", 1025), ("dashboard", 8025)], &[]);
    ctx.track = "1".to_string();
    ctx.data_dir = "/pv/data/mailpit/1".to_string();
    let spec = adapter
        .build_process_spec(
            &ctx,
            "/pv/resources/mailpit/1/bin/mailpit".to_string(),
            RuntimeRecordPaths {
                config_path: "c".to_string(),
                log_path: "l".to_string(),
                pid_path: "p".to_string(),
                metadata_path: "m".to_string(),
            },
        )
        .unwrap();
    assert_eq!(spec.name, "mailpit-1");
    assert_eq!(
        spec.arguments,
        vec![
            "--smtp",
            "127.0.0.1:1025",
            "--listen",
            "127.0.0.1:8025",
            "--database",
            "/pv/data/mailpit/1/mailpit.db",
            "--disable-version-check",
        ]
    );
    let env = adapter.resource_env(&ctx).unwrap();
    assert_eq!(
        env,
        vec![
            ("dashboard_url".to_string(), "http://127.0.0.1:8025".to_string()),
            ("smtp_host".to_string(), "127.0.0.1".to_string()),
            ("smtp_port".to_string(), "1025".to_string()),
        ]
    );
    match adapter.readiness::<()>(&ctx).unwrap() {
        ManagedResourceReadiness::TcpHttp(ReadinessCheck::Http { host, port, path }) => {
            assert_eq!(host, "127.0.0.1");
            assert_eq!(port, 8025);
            assert_eq!(path, "/");
        }
        _ => panic!("expected an HTTP check"),
    }
    let config = adapter.runtime_config(&ctx).unwrap();
    assert_eq!(
        config,
        pretty(
            &[
                ("resource", "mailpit"),
                ("track", "1"),
                ("smtp", "127.0.0.1:1025"),
                ("listen", "127.0.0.1:8025"),
                ("data_dir", "/pv/data/mailpit/1"),
            ],
            &[],
        )
    );
    assert_eq!(adapter.resource_name(), "mailpit");
    assert_eq!(adapter.port_specs().len(), 2);
}

#[test]
fn mailpit_without_smtp_port_reports_smtp_first() {
    let adapter = MailpitRuntimeAdapter::new();
    let ctx = context("mailpit", &[], &[]);
    match adapter.resource_env(&ctx) {
        Err(DaemonError::ManagedResourcePortMissing { port, .. }) => assert_eq!(port, "smtp"),
        _ => panic!("expected the smtp port to be missing"),
    }
    let dashboard_only = context("mailpit", &[("smtp", 1025)], &[]);
    match adapter.runtime_config(&dashboard_only) {
        Err(DaemonError::ManagedResourcePortMissing { port, .. }) => assert_eq!(port, "dashboard"),
        _ => panic!("expected the dashboard port to be missing"),
    }
}

#[test]
fn required_port_and_env_lookup_find_the_named_entries() {
    let ctx = context("redis", &[("a", 1), ("b", 2)], &[("k", "v")]);
    assert_eq!(required_port(&ctx, "b").unwrap(), 2);
    assert!(required_port(&ctx, "c").is_err());
    assert_eq!(env_get(&ctx.env, "k"), Some("v".to_string()));
    assert_eq!(env_get(&ctx.env, "missing"), None);
}

#[test]
fn runtime_exit_before_readiness_names_the_runtime() {
    let error = runtime_exited_before_readiness_error("mysql-8.4");
    assert_eq!(
        error.message(),
        "daemon protocol error: runtime `mysql-8.4` exited before readiness was verified"
    );
}

#[test]
fn cleanup_deletes_pid_metadata_and_config_in_order() {
    let spec = ProcessSpec {
        name: "n".to_string(),
        command: "c".to_string(),
        arguments: Vec::new(),
        config_path: "config".to_string(),
        log_path: "log".to_string(),
        pid_path: "pid".to_string(),
        metadata_path: "meta".to_string(),
        resource_name: "r".to_string(),
        track: "t".to_string(),
    };
    let deleted = std::cell::RefCell::new(Vec::new());
    let result = cleanup_started_runtime_files(&spec, |path: &String| {
        deleted.borrow_mut().push(path.clone());
        Ok(())
    });
    assert!(result.is_ok());
    assert_eq!(*deleted.borrow(), vec!["pid", "meta", "config"]);

    let failing = cleanup_started_runtime_files(&spec, |path: &String| {
        if path == "meta" {
            Err(DaemonError::Io { message: "busy".to_string() })
        } else {
            Ok(())
        }
    });
    assert!(matches!(failing, Err(DaemonError::Io { message }) if message == "busy"));
}

#[test]
fn remaining_timeout_is_what_is_left_of_the_timeout() {
    let left = remaining_timeout(Span { secs: 1, nanos: 500_000_000 }, Span { secs: 15, nanos: 0 }).unwrap();
    assert_eq!(left.secs, 13);
    assert_eq!(left.nanos, 500_000_000);
    assert!(remaining_timeout(Span { secs: 15, nanos: 0 }, Span { secs: 15, nanos: 0 }).is_none());
    assert!(remaining_timeout(Span { secs: 16, nanos: 0 }, Span { secs: 15, nanos: 0 }).is_none());
    assert_eq!(duration_milliseconds(Span { secs: 2, nanos: 345_999_999 }), 2345);
    assert_eq!(usize_as_u64(42), 42);
}
