use idili::config::default_config;

#[test]
fn default_config_fixes_name_and_directories() {
    let c = default_config();
    assert_eq!(c.program_name, "idili-tauri");
    assert_eq!(c.protected_store_dir, "../.store/protected");
    assert_eq!(c.block_store_dir, "../.store/block");
    assert_eq!(c.table_store_dir, "../.store/table");
}

#[test]
fn default_config_fixes_timeouts_and_caps() {
    let n = default_config().network;
    assert_eq!(n.connection_initial_timeout_ms, 2000);
    assert_eq!(n.connection_inactivity_timeout_ms, 60000);
    assert_eq!(n.max_connections_per_ip4, 32);
    assert_eq!(n.max_connections_per_ip6_prefix, 32);
    assert_eq!(n.max_connection_frequency_per_min, 128);
    assert_eq!(n.rpc.timeout_ms, 5000);
    assert_eq!(n.dht.get_value_timeout_ms, 10000);
    assert_eq!(n.protocol.tcp_max_connections, 32);
}

#[test]
fn default_config_tier_limits_strictly_decrease() {
    let rt = default_config().network.routing_table;
    assert_eq!(rt.limit_over_attached, 64);
    assert_eq!(rt.limit_fully_attached, 32);
    assert_eq!(rt.limit_attached_strong, 16);
    assert_eq!(rt.limit_attached_good, 8);
    assert_eq!(rt.limit_attached_weak, 4);
    assert!(rt.limit_over_attached > rt.limit_fully_attached);
    assert!(rt.limit_fully_attached > rt.limit_attached_strong);
    assert!(rt.limit_attached_strong > rt.limit_attached_good);
    assert!(rt.limit_attached_good > rt.limit_attached_weak);
    assert!(rt.limit_attached_weak > 0);
}

#[test]
fn default_config_populates_required_fields() {
    let c = default_config();
    assert!(!c.program_name.is_empty());
    assert!(!c.protected_store_dir.is_empty());
    assert!(!c.block_store_dir.is_empty());
    assert!(!c.table_store_dir.is_empty());
    assert_ne!(c.protected_store_dir, c.block_store_dir);
    assert_ne!(c.protected_store_dir, c.table_store_dir);
    assert_ne!(c.block_store_dir, c.table_store_dir);
}

#[test]
fn default_config_timeouts_strictly_positive() {
    let n = default_config().network;
    assert!(n.connection_initial_timeout_ms > 0);
    assert!(n.connection_inactivity_timeout_ms > 0);
    assert!(n.client_allowlist_timeout_ms > 0);
    assert!(n.reverse_connection_receipt_time_ms > 0);
    assert!(n.hole_punch_receipt_time_ms > 0);
    assert!(n.rpc.timeout_ms > 0);
    assert!(n.dht.resolve_node_timeout_ms > 0);
    assert!(n.dht.get_value_timeout_ms > 0);
    assert!(n.dht.set_value_timeout_ms > 0);
    assert!(n.dht.min_peer_refresh_time_ms > 0);
    assert!(n.dht.validate_dial_info_receipt_time_ms > 0);
}

#[test]
fn default_config_connection_limits_strictly_positive() {
    let n = default_config().network;
    assert!(n.max_connections_per_ip4 > 0);
    assert!(n.max_connections_per_ip6_prefix > 0);
    assert!(n.max_connections_per_ip6_prefix_size > 0);
    assert!(n.max_connection_frequency_per_min > 0);
    assert!(n.routing_table.limit_over_attached > 0);
    assert!(n.routing_table.limit_fully_attached > 0);
    assert!(n.routing_table.limit_attached_strong > 0);
    assert!(n.routing_table.limit_attached_good > 0);
    assert!(n.routing_table.limit_attached_weak > 0);
    assert!(n.protocol.tcp_max_connections > 0);
}

#[test]
fn default_config_bootstrap_non_empty() {
    let c = default_config();
    assert!(!c.network.routing_table.bootstrap.is_empty());
    assert_eq!(c.network.routing_table.bootstrap[0], "bootstrap.veilid.net");
}

#[test]
fn default_config_transports_enabled() {
    let p = default_config().network.protocol;
    assert!(p.udp_enabled);
    assert!(p.tcp_connect);
    assert!(p.tcp_listen);
}

#[test]
fn default_config_attachment_timeouts_in_seconds_range() {
    let n = default_config().network;
    assert!(2000 <= n.connection_initial_timeout_ms && n.connection_initial_timeout_ms <= 10000);
    assert!(2000 <= n.rpc.timeout_ms && n.rpc.timeout_ms <= 10000);
    assert!(2000 <= n.dht.get_value_timeout_ms && n.dht.get_value_timeout_ms <= 10000);
    assert!(2000 <= n.dht.resolve_node_timeout_ms && n.dht.resolve_node_timeout_ms <= 10000);
}
