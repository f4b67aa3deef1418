use roguewave::{
    create_database_command, create_role_command, create_user_command, database_probe, decimal_text,
    role_probe,
    env_command, freshness, grant_command, install_command, missing_packages, package_installed_from,
    package_query, parse_env, path_exists_from, plan_upload, required_var, row_found,
    set_shell_command, shell_change, update_command, upgrade_command, user_exists_from, user_id_command,
    user_id_from, user_id_from_trimmed, user_probe, ArgKind, Command, CommandOutput, EnvCache, Error,
    Freshness, Level, PathStat, Target, UPDATE_PERIOD_SECS,
};

fn words(c: &Command) -> Vec<String> {
    c.argv
        .iter()
        .map(|a| match &a.kind {
            ArgKind::Escaped(s) => s.clone(),
            ArgKind::Raw(s) => format!("raw:{s}"),
        })
        .collect()
}

fn output(code: i32, stdout: &str) -> CommandOutput {
    CommandOutput { exit_code: code, stdout: stdout.to_string(), stderr: String::new() }
}

const ROOT_ENV: &str = "SHELL=/bin/bash\nPWD=/root\nHOME=/root\nLS_COLORS=a=b:c=d\nUSER=root\nPATH=/usr/bin:/bin\n";

#[test]
fn env_output_is_parsed() {
    let vars = parse_env(ROOT_ENV).unwrap();
    assert_eq!(vars.get("HOME").unwrap(), "/root");
    assert_eq!(vars.get("USER").unwrap(), "root");
    assert_eq!(vars.get("PWD").unwrap(), "/root");
    assert_eq!(vars.get("SHELL").unwrap(), "/bin/bash");
    assert_eq!(vars.get("LS_COLORS").unwrap(), "a=b:c=d");
    assert!(vars.get("PATH").is_some());
    assert!(vars.get("NOPE").is_none());
    assert_eq!(required_var(&vars, "HOME"), Ok("/root".to_string()));
    assert_eq!(required_var(&vars, "USER"), Ok("root".to_string()));
    assert_eq!(required_var(&vars, "SHELL"), Ok("/bin/bash".to_string()));
    assert_eq!(required_var(&vars, "MAIL"), Err(Error::MissingEnvVar { name: "MAIL".to_string() }));
}

#[test]
fn env_edge_cases() {
    let vars = parse_env("\n\nA=1\nB=\nA=2\nC=x=y").unwrap();
    assert_eq!(vars.entries.len(), 4);
    assert_eq!(vars.get("A").unwrap(), "2");
    assert_eq!(vars.get("B").unwrap(), "");
    assert_eq!(vars.get("C").unwrap(), "x=y");
    assert_eq!(parse_env("").unwrap().entries.len(), 0);
    assert_eq!(parse_env("A=1\nbroken\n").err(), Some(Error::MissingEnvSeparator));
    assert_eq!(parse_env("A=1\nbroken").err(), Some(Error::MissingEnvSeparator));
}

#[test]
fn env_command_and_cache() {
    assert_eq!(words(&env_command(None)), vec!["env"]);
    let c = env_command(Some("alice"));
    assert_eq!(words(&c), vec!["sudo", "--login", "--user", "alice", "env"]);
    assert_eq!((c.command_log_level, c.stdout_log_level, c.stderr_log_level), (Level::Trace, Level::Trace, Level::Error));

    let mut cache = EnvCache::new();
    assert!(!cache.has_user(None));
    assert!(!cache.has_user(Some("alice")));
    cache.insert(Some("alice"), parse_env("HOME=/home/alice\n").unwrap());
    assert!(cache.has_user(Some("alice")));
    assert!(!cache.has_user(Some("bob")));
    assert!(!cache.has_user(None));
    cache.insert(None, parse_env(ROOT_ENV).unwrap());
    assert!(cache.has_user(None));
    assert_eq!(cache.get(Some("alice")).unwrap().get("HOME").unwrap(), "/home/alice");
    assert_eq!(cache.get(None).unwrap().get("HOME").unwrap(), "/root");
    cache.insert(Some("alice"), parse_env("HOME=/srv/alice\n").unwrap());
    assert_eq!(cache.get(Some("alice")).unwrap().get("HOME").unwrap(), "/srv/alice");
    assert!(cache.get(Some("bob")).is_none());
}

#[test]
fn shell_is_changed_only_when_it_differs() {
    assert!(set_shell_command("/bin/bash", "/bin/bash", None).is_none());
    assert!(set_shell_command("/bin/bash/", "/bin/bash", None).is_none());
    let c = set_shell_command("/bin/bash", "/bin/zsh", Some("alice")).unwrap();
    assert_eq!(words(&c), vec!["chsh", "-s", "/bin/zsh", "alice"]);
    let d = shell_change(false, "/bin/zsh", None).unwrap();
    assert_eq!(words(&d), vec!["chsh", "-s", "/bin/zsh"]);
    assert!(shell_change(true, "/bin/zsh", None).is_none());
}

#[test]
fn package_status_is_interpreted() {
    let q = package_query("rolldice");
    assert_eq!(words(&q), vec!["dpkg-query", "--show", "--showformat=${db:Status-Status}", "rolldice"]);
    assert!(q.allow_failure);
    assert_eq!(q.stderr_log_level, Level::Trace);
    assert_eq!(package_installed_from(&output(1, "")), Ok(false));
    assert_eq!(package_installed_from(&output(0, "installed")), Ok(true));
    assert_eq!(package_installed_from(&output(0, "config-files")), Ok(false));
    assert_eq!(package_installed_from(&output(2, "")), Err(Error::UnexpectedExitCode { code: 2 }));
}

#[test]
fn install_plan() {
    let new = missing_packages(&["nginx", "rsync", "rolldice"], &[true, false, false]);
    assert_eq!(new, vec!["rsync", "rolldice"]);
    assert!(missing_packages(&["nginx"], &[true]).is_empty());
    assert_eq!(words(&install_command(&new)), vec!["apt-get", "install", "--yes", "rsync", "rolldice"]);
    assert_eq!(words(&update_command()), vec!["apt-get", "update"]);
    assert_eq!(words(&upgrade_command()), vec!["DEBIAN_FRONTEND=noninteractive", "apt-get", "dist-upgrade", "--yes"]);
}

#[test]
fn freshness_rule() {
    assert_eq!(UPDATE_PERIOD_SECS, 3600);
    assert_eq!(freshness(true, None), Freshness::Fresh);
    assert_eq!(freshness(true, Some(99999)), Freshness::Fresh);
    assert_eq!(freshness(false, Some(3599)), Freshness::MarkFresh);
    assert_eq!(freshness(false, Some(3600)), Freshness::Update);
    assert_eq!(freshness(false, None), Freshness::Update);
}

#[test]
fn user_recipes() {
    assert_eq!(words(&user_probe("user1")), vec!["id", "--user", "user1"]);
    assert_eq!(user_exists_from(0), Ok(true));
    assert_eq!(user_exists_from(1), Ok(false));
    assert_eq!(user_exists_from(5), Err(Error::UnexpectedExitCode { code: 5 }));
    assert!(create_user_command(true, "user1").is_none());
    assert_eq!(words(&create_user_command(false, "user1").unwrap()), vec!["useradd", "--create-home", "user1"]);
    let id = user_id_command("user1");
    assert_eq!(words(&id), vec!["id", "--user", "user1"]);
    assert_eq!(id.stdout_log_level, Level::Trace);
    assert_eq!(user_id_from("1000\n"), Ok(1000));
    assert_eq!(user_id_from("  0 "), Ok(0));
    assert_eq!(user_id_from("+7"), Ok(7));
    assert_eq!(user_id_from("4294967296"), Err(Error::InvalidUserId));
    assert_eq!(user_id_from("-1"), Err(Error::InvalidUserId));
    assert_eq!(user_id_from(""), Err(Error::InvalidUserId));
    assert_eq!(user_id_from_trimmed("42"), Ok(42));
    assert_eq!(user_id_from_trimmed(" 42"), Err(Error::InvalidUserId));
}

#[test]
fn postgres_commands() {
    let p = role_probe("app_user").unwrap();
    assert_eq!(words(&p), vec!["sudo", "--user", "postgres", "--login", "psql", "--tuples-only", "--command", "SELECT 1 FROM pg_roles WHERE rolname = 'app_user'"]);
    assert_eq!((p.command_log_level, p.stdout_log_level), (Level::Trace, Level::Trace));
    assert_eq!(role_probe("bad-name").err(), Some(Error::InvalidPostgresUser));
    assert_eq!(role_probe("").err(), Some(Error::InvalidPostgresUser));

    let c = create_role_command("app", "it's a \\ secret").unwrap();
    assert_eq!(words(&c), vec!["sudo", "--user", "postgres", "--login", "psql", "--command", "CREATE USER app WITH PASSWORD 'it''s a \\\\ secret'"]);
    assert_eq!(c.argv[6].display_placeholder.as_deref(), Some("CREATE USER app WITH PASSWORD '<redacted>'"));
    assert!(!c.start().unwrap().contains("secret"));
    assert_eq!(create_role_command("a b", "x").err(), Some(Error::InvalidPostgresUser));

    assert_eq!(words(&database_probe("db$1").unwrap())[7], "SELECT 1 FROM pg_database WHERE datname = 'db$1'");
    assert_eq!(database_probe("d;b").err(), Some(Error::InvalidPostgresDatabase));
    assert_eq!(words(&create_database_command("shop").unwrap()), vec!["sudo", "--user", "postgres", "--login", "psql", "--command", "CREATE DATABASE shop"]);
    assert_eq!(create_database_command("").err(), Some(Error::InvalidPostgresDatabase));
    assert_eq!(words(&grant_command("shop", "app").unwrap())[6], "GRANT ALL PRIVILEGES ON DATABASE shop TO app");
    assert_eq!(grant_command("shop", "a$").err(), Some(Error::InvalidPostgresUser));
    assert_eq!(grant_command("s p", "app").err(), Some(Error::InvalidPostgresDatabase));
    assert!(row_found("        1\n\n"));
    assert!(!row_found("\n"));
}

fn target(user: Option<&str>, port: Option<&str>) -> Target {
    Target::new(user, port, "example.org").unwrap()
}

#[test]
fn target_port_is_parsed() {
    let t = target(Some("root"), Some("2222"));
    assert_eq!(t.port, Some(2222));
    assert_eq!(t.user.as_deref(), Some("root"));
    assert_eq!(t.destination, "example.org");
    assert_eq!(Target::new(None, Some("65536"), "h").err(), Some(Error::InvalidPort));
    assert_eq!(Target::new(None, Some("ssh"), "h").err(), Some(Error::InvalidPort));
    assert_eq!(Target::new(None, None, "h").unwrap().port, None);
    assert_eq!(decimal_text(0), "0");
    assert_eq!(decimal_text(65535), "65535");
}

#[test]
fn path_existence() {
    assert_eq!(path_exists_from(PathStat::Found { is_dir: Some(false) }), Ok(true));
    assert_eq!(path_exists_from(PathStat::Found { is_dir: None }), Ok(true));
    assert_eq!(path_exists_from(PathStat::Failed { no_such_file: true, message: "no such file".into() }), Ok(false));
    assert_eq!(
        path_exists_from(PathStat::Failed { no_such_file: false, message: "permission denied".into() }),
        Err(Error::Remote { message: "permission denied".into() })
    );
}

#[test]
fn upload_plan_builds_rsync() {
    let t = target(Some("root"), Some("2222"));
    let c = plan_upload(&t, &["http_server.conf", "files"], "/etc/nginx", PathStat::Found { is_dir: Some(true) }, Some("www-data")).unwrap();
    assert_eq!(
        c.argv,
        vec![
            "rsync", "--itemize-changes", "--recursive", "--links", "--perms", "--times", "--compress", "--delete",
            "--rsync-path", "sudo --user www-data rsync", "http_server.conf", "files", "--rsh", "ssh -p 2222",
            "root@example.org:/etc/nginx",
        ]
    );
    assert_eq!(c.command_log_level, Level::Trace);
    let plain = plan_upload(&target(None, None), &["a"], "/var/www", PathStat::Found { is_dir: Some(true) }, None).unwrap();
    assert_eq!(plain.argv[8..], ["a", "example.org:/var/www"]);
}

#[test]
fn upload_refuses_before_rsync() {
    let t = target(None, None);
    assert_eq!(
        plan_upload(&t, &["a"], "/etc/passwd", PathStat::Found { is_dir: Some(false) }, None).err(),
        Some(Error::NotADirectory { path: "/etc/passwd".into() })
    );
    assert_eq!(plan_upload(&t, &["a"], "/x", PathStat::Found { is_dir: None }, None).err(), Some(Error::MissingFileType));
    assert_eq!(
        plan_upload(&t, &["a"], "/x", PathStat::Failed { no_such_file: true, message: "gone".into() }, None).err(),
        Some(Error::Remote { message: "gone".into() })
    );
    assert_eq!(
        plan_upload(&t, &["a"], "/x", PathStat::Found { is_dir: Some(true) }, Some("a b")).err(),
        Some(Error::UnsafeUser { user: "a b".into() })
    );
    assert_eq!(
        plan_upload(&t, &["a"], "/x", PathStat::Found { is_dir: Some(true) }, Some("")).err(),
        Some(Error::UnsafeUser { user: String::new() })
    );
}
