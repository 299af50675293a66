use config_watcher::config::{ConfigError, SettingValue};
use config_watcher::nginx::{
    add_security_headers, config_permission_script, config_test_args, enable_autoindex,
    has_index, index_check_script, index_create_script, index_roots, is_config_file_name,
    scan_logs, severe_lines, welcome_page, NginxService,
};
use config_watcher::{GlobalSettings, ServiceConfig, ServiceType};

#[test]
fn log_scan_counts() {
    let none = scan_logs("all good\nstarted\n");
    assert!(!none.warns());
    assert!(!none.reports_forbidden());
    let some = scan_logs("ERROR one\nok\n[error] 403 forbidden\nError: x 403\nerror 6\nerror 7\nerror 8\n");
    assert!(some.warns());
    assert_eq!(some.error_lines.len(), 6);
    assert_eq!(some.forbidden_count, 2);
    assert!(some.reports_forbidden());
    assert_eq!(some.shown().len(), 5);
    assert_eq!(some.shown()[0], "ERROR one");
    let one = scan_logs("only 403 here\nfine error\n");
    assert_eq!(one.error_lines, vec!["fine error".to_string()]);
    assert_eq!(one.forbidden_count, 0);
}

#[test]
fn severe_error_log_lines() {
    assert_eq!(
        severe_lines("x alert y\nnotice\n[crit] critical\nemerg!\nERROR upper\n"),
        vec!["x alert y", "[crit] critical", "emerg!"]
    );
}

#[test]
fn directory_listing_rewrite() {
    assert_eq!(
        enable_autoindex("autoindex off;\nlocation / { autoindex off; }"),
        "autoindex on;\nlocation / { autoindex on; }"
    );
    assert_eq!(enable_autoindex("nothing"), "nothing");
}

#[test]
fn root_directives() {
    let conf = "server {\n  root /var/www/site;\n  location /x { root $doc; }\n  root   ;\n  document_root /srv/other ;\n}";
    assert_eq!(index_roots(conf), vec!["/var/www/site", "/srv/other"]);
    assert!(index_roots("rooted").is_empty());
}

#[test]
fn index_detection() {
    assert!(has_index(&vec!["a.css".to_string(), "index.php".to_string()]));
    assert!(!has_index(&vec!["index".to_string(), "main.html".to_string()]));
    assert!(is_config_file_name("nginx.conf"));
    assert!(is_config_file_name("site.conf"));
    assert!(!is_config_file_name("site.conf.bak"));
}

#[test]
fn security_headers_added_once() {
    let conf = "server {\n    location / {\n        root /srv;\n    }\n}\n";
    let once = add_security_headers(conf);
    assert_eq!(
        once,
        "server {\n    location / {\n        # Security headers\n        add_header X-Content-Type-Options nosniff;\n        add_header X-Frame-Options SAMEORIGIN;\n        add_header X-XSS-Protection \"1; mode=block\";\n        root /srv;\n    }\n}"
    );
    assert_eq!(add_security_headers(&once), once);
    assert_eq!(once.matches("X-Content-Type-Options").count(), 1);
    assert_eq!(add_security_headers("events {}\n"), "events {}\n");
}

#[test]
fn nginx_service_settings() {
    let g = GlobalSettings::default();
    let mut s = ServiceConfig::default_nginx();
    let n = NginxService::new(&s, &g).unwrap();
    assert_eq!(n.web_root, "/var/www/html");
    assert!(!n.enable_dir_listing);
    assert_eq!(n.get_config_path(), "/app/config/nginx");
    s.custom_settings = vec![
        ("web_root".to_string(), SettingValue::Text("/srv/www".to_string())),
        ("enable_dir_listing".to_string(), SettingValue::Flag(true)),
    ];
    let n = NginxService::new(&s, &g).unwrap();
    assert_eq!(n.web_root, "/srv/www");
    assert!(n.enable_dir_listing);
    assert_eq!(n.fix_config_text("location / {\n autoindex off;\n}"), "location / {\n        # Security headers\n        add_header X-Content-Type-Options nosniff;\n        add_header X-Frame-Options SAMEORIGIN;\n        add_header X-XSS-Protection \"1; mode=block\";\n autoindex on;\n}");
    let p = n.permissions();
    assert_eq!(p.user, "nginx");
    assert_eq!(n.list_dirs_script(), "find /srv/www -type d");
    assert_eq!(
        n.web_root_script(&p),
        "mkdir -p /srv/www && chown -R nginx:nginx /srv/www && chmod -R 755 /srv/www && find /srv/www -type d -exec chmod 755 {} \\; && find /srv/www -type f -exec chmod 644 {} \\;"
    );
    s.service_type = ServiceType::Apache;
    assert!(matches!(NginxService::new(&s, &g), Err(ConfigError::NotNginxService)));
}

#[test]
fn container_scripts() {
    assert_eq!(index_check_script("/d"), "find /d -maxdepth 1 -name \"index.*\" | grep .");
    assert!(welcome_page().contains("Site under construction"));
    let p = config_watcher::config::Permissions { fix: true, user: "u".to_string(), group: "g".to_string() };
    let script = index_create_script("/d", &p);
    assert!(script.ends_with("' > /d/index.html && chown u:g /d/index.html && chmod 644 /d/index.html"));
    assert_eq!(config_permission_script(), "chmod -R 644 /etc/nginx/conf.d/*.conf && chmod 644 /etc/nginx/nginx.conf");
    assert_eq!(config_test_args("c"), vec!["exec", "c", "nginx", "-t"]);
}
