//! Startup configuration for the overlay-network client.
//!
//! The configuration is produced once, at process startup, from fixed policy
//! choices: isolated on-disk directories for protected secrets, block data
//! and routing-table state; connection and attachment timeouts of a few
//! seconds; bounded connection counts per peer and subnet; both UDP and TCP
//! enabled with incoming TCP listening; and a small fixed bootstrap peer
//! list. Building the configuration performs no I/O and cannot fail.

use vstd::prelude::*;

verus! {

/// Node-count limits per attachment tier, and the bootstrap peers the
/// client contacts first.
pub struct RoutingTableConfig {
    pub bootstrap: Vec<String>,
    pub limit_over_attached: u32,
    pub limit_fully_attached: u32,
    pub limit_attached_strong: u32,
    pub limit_attached_good: u32,
    pub limit_attached_weak: u32,
}

/// Remote-procedure-call concurrency, queueing and timeout settings.
pub struct RpcConfig {
    pub concurrency: u32,
    pub queue_size: u32,
    pub max_timestamp_behind_ms: Option<u32>,
    pub max_timestamp_ahead_ms: Option<u32>,
    pub timeout_ms: u32,
    pub max_route_hop_count: u8,
    pub default_route_hop_count: u8,
}

/// Distributed-hash-table fanout, timeout and replication settings.
pub struct DhtConfig {
    pub max_find_node_count: u32,
    pub resolve_node_timeout_ms: u32,
    pub resolve_node_count: u32,
    pub resolve_node_fanout: u32,
    pub get_value_timeout_ms: u32,
    pub get_value_count: u32,
    pub get_value_fanout: u32,
    pub set_value_timeout_ms: u32,
    pub set_value_count: u32,
    pub set_value_fanout: u32,
    pub min_peer_count: u32,
    pub min_peer_refresh_time_ms: u32,
    pub validate_dial_info_receipt_time_ms: u32,
}

/// Which transports are enabled.
pub struct ProtocolConfig {
    pub udp_enabled: bool,
    pub tcp_connect: bool,
    pub tcp_listen: bool,
    pub tcp_max_connections: u32,
}

/// The network block of the startup configuration: timeouts in
/// milliseconds, per-IP and per-subnet connection caps, and the nested
/// routing-table, RPC, DHT and protocol settings.
pub struct NetworkConfig {
    pub connection_initial_timeout_ms: u32,
    pub connection_inactivity_timeout_ms: u32,
    pub max_connections_per_ip4: u32,
    pub max_connections_per_ip6_prefix: u32,
    pub max_connections_per_ip6_prefix_size: u32,
    pub max_connection_frequency_per_min: u32,
    pub client_allowlist_timeout_ms: u32,
    pub reverse_connection_receipt_time_ms: u32,
    pub hole_punch_receipt_time_ms: u32,
    pub upnp: bool,
    pub detect_address_changes: bool,
    pub restricted_nat_retries: u32,
    pub routing_table: RoutingTableConfig,
    pub rpc: RpcConfig,
    pub dht: DhtConfig,
    pub protocol: ProtocolConfig,
}

/// The complete startup configuration handed to the overlay-network client:
/// a program name, three isolated storage directories, and the network
/// block.
pub struct Config {
    pub program_name: String,
    pub protected_store_dir: String,
    pub block_store_dir: String,
    pub table_store_dir: String,
    pub network: NetworkConfig,
}

pub open spec fn routing_table_wf(c: RoutingTableConfig) -> bool {
    &&& c.bootstrap@.len() > 0
    &&& c.limit_over_attached > 0
    &&& c.limit_fully_attached > 0
    &&& c.limit_attached_strong > 0
    &&& c.limit_attached_good > 0
    &&& c.limit_attached_weak > 0
}

pub open spec fn rpc_wf(c: RpcConfig) -> bool {
    &&& c.queue_size > 0
    &&& c.timeout_ms > 0
    &&& c.max_route_hop_count > 0
    &&& c.default_route_hop_count > 0
    &&& c.default_route_hop_count <= c.max_route_hop_count
}

pub open spec fn dht_wf(c: DhtConfig) -> bool {
    &&& c.max_find_node_count > 0
    &&& c.resolve_node_timeout_ms > 0
    &&& c.resolve_node_count > 0
    &&& c.resolve_node_fanout > 0
    &&& c.get_value_timeout_ms > 0
    &&& c.get_value_count > 0
    &&& c.get_value_fanout > 0
    &&& c.set_value_timeout_ms > 0
    &&& c.set_value_count > 0
    &&& c.set_value_fanout > 0
    &&& c.min_peer_count > 0
    &&& c.min_peer_refresh_time_ms > 0
    &&& c.validate_dial_info_receipt_time_ms > 0
}

pub open spec fn protocol_wf(c: ProtocolConfig) -> bool {
    &&& c.udp_enabled
    &&& c.tcp_connect
    &&& c.tcp_listen
    &&& c.tcp_max_connections > 0
}

pub open spec fn network_wf(c: NetworkConfig) -> bool {
    &&& c.connection_initial_timeout_ms > 0
    &&& c.connection_inactivity_timeout_ms > 0
    &&& c.max_connections_per_ip4 > 0
    &&& c.max_connections_per_ip6_prefix > 0
    &&& c.max_connections_per_ip6_prefix_size > 0
    &&& c.max_connection_frequency_per_min > 0
    &&& c.client_allowlist_timeout_ms > 0
    &&& c.reverse_connection_receipt_time_ms > 0
    &&& c.hole_punch_receipt_time_ms > 0
    &&& routing_table_wf(c.routing_table)
    &&& rpc_wf(c.rpc)
    &&& dht_wf(c.dht)
    &&& protocol_wf(c.protocol)
}

/// A configuration is well formed when every required field is populated:
/// the program name and the three storage directories are non-empty and the
/// directories are pairwise distinct, every timeout and connection-limit
/// field is strictly positive, the bootstrap peer list is non-empty, and
/// both transports are enabled with incoming TCP listening on.
pub open spec fn config_wf(c: Config) -> bool {
    &&& c.program_name@.len() > 0
    &&& c.protected_store_dir@.len() > 0
    &&& c.block_store_dir@.len() > 0
    &&& c.table_store_dir@.len() > 0
    &&& c.protected_store_dir@ != c.block_store_dir@
    &&& c.protected_store_dir@ != c.table_store_dir@
    &&& c.block_store_dir@ != c.table_store_dir@
    &&& network_wf(c.network)
}

/// Builds the fixed startup configuration. Pure: no I/O, no failure; the
/// result is always well formed, and the contract pins every produced
/// value: the program name and the three isolated store directories, the
/// connection and DHT timeouts (the attachment-relevant ones inside the
/// policy range of two to ten seconds), the per-IP, per-subnet and TCP
/// connection caps, the strictly decreasing attachment-tier limit chain,
/// and the single bootstrap peer.
pub fn default_config() -> (c: Config)
    ensures
        config_wf(c),
        c.program_name@ == "idili-tauri"@,
        c.protected_store_dir@ == "../.store/protected"@,
        c.block_store_dir@ == "../.store/block"@,
        c.table_store_dir@ == "../.store/table"@,
        c.network.connection_initial_timeout_ms == 2000,
        c.network.connection_inactivity_timeout_ms == 60000,
        c.network.max_connections_per_ip4 == 32,
        c.network.max_connections_per_ip6_prefix == 32,
        c.network.max_connections_per_ip6_prefix_size == 56,
        c.network.max_connection_frequency_per_min == 128,
        c.network.client_allowlist_timeout_ms == 300000,
        c.network.reverse_connection_receipt_time_ms == 5000,
        c.network.hole_punch_receipt_time_ms == 5000,
        c.network.upnp,
        c.network.detect_address_changes,
        c.network.restricted_nat_retries == 0,
        c.network.routing_table.bootstrap@.len() == 1,
        c.network.routing_table.bootstrap@[0]@ == "bootstrap.veilid.net"@,
        c.network.routing_table.limit_over_attached == 64,
        c.network.routing_table.limit_fully_attached == 32,
        c.network.routing_table.limit_attached_strong == 16,
        c.network.routing_table.limit_attached_good == 8,
        c.network.routing_table.limit_attached_weak == 4,
        c.network.rpc == (RpcConfig {
            concurrency: 0,
            queue_size: 1024,
            max_timestamp_behind_ms: Some(10000u32),
            max_timestamp_ahead_ms: Some(10000u32),
            timeout_ms: 5000,
            max_route_hop_count: 4,
            default_route_hop_count: 1,
        }),
        c.network.dht == (DhtConfig {
            max_find_node_count: 20,
            resolve_node_timeout_ms: 10000,
            resolve_node_count: 1,
            resolve_node_fanout: 4,
            get_value_timeout_ms: 10000,
            get_value_count: 3,
            get_value_fanout: 4,
            set_value_timeout_ms: 10000,
            set_value_count: 5,
            set_value_fanout: 4,
            min_peer_count: 20,
            min_peer_refresh_time_ms: 60000,
            validate_dial_info_receipt_time_ms: 2000,
        }),
        c.network.protocol == (ProtocolConfig {
            udp_enabled: true,
            tcp_connect: true,
            tcp_listen: true,
            tcp_max_connections: 32,
        }),
{
    proof {
        reveal_strlit("idili-tauri");
        reveal_strlit("../.store/protected");
        reveal_strlit("../.store/block");
        reveal_strlit("../.store/table");
        reveal_strlit("bootstrap.veilid.net");
        assert("../.store/block"@[10] == 'b');
        assert("../.store/table"@[10] == 't');
        assert("../.store/block"@ != "../.store/table"@);
    }
    let mut bootstrap: Vec<String> = Vec::new();
    bootstrap.push("bootstrap.veilid.net".to_owned());
    Config {
        program_name: "idili-tauri".to_owned(),
        protected_store_dir: "../.store/protected".to_owned(),
        block_store_dir: "../.store/block".to_owned(),
        table_store_dir: "../.store/table".to_owned(),
        network: NetworkConfig {
            connection_initial_timeout_ms: 2000,
            connection_inactivity_timeout_ms: 60000,
            max_connections_per_ip4: 32,
            max_connections_per_ip6_prefix: 32,
            max_connections_per_ip6_prefix_size: 56,
            max_connection_frequency_per_min: 128,
            client_allowlist_timeout_ms: 300000,
            reverse_connection_receipt_time_ms: 5000,
            hole_punch_receipt_time_ms: 5000,
            upnp: true,
            detect_address_changes: true,
            restricted_nat_retries: 0,
            routing_table: RoutingTableConfig {
                bootstrap,
                limit_over_attached: 64,
                limit_fully_attached: 32,
                limit_attached_strong: 16,
                limit_attached_good: 8,
                limit_attached_weak: 4,
            },
            rpc: RpcConfig {
                concurrency: 0,
                queue_size: 1024,
                max_timestamp_behind_ms: Some(10000),
                max_timestamp_ahead_ms: Some(10000),
                timeout_ms: 5000,
                max_route_hop_count: 4,
                default_route_hop_count: 1,
            },
            dht: DhtConfig {
                max_find_node_count: 20,
                resolve_node_timeout_ms: 10000,
                resolve_node_count: 1,
                resolve_node_fanout: 4,
                get_value_timeout_ms: 10000,
                get_value_count: 3,
                get_value_fanout: 4,
                set_value_timeout_ms: 10000,
                set_value_count: 5,
                set_value_fanout: 4,
                min_peer_count: 20,
                min_peer_refresh_time_ms: 60000,
                validate_dial_info_receipt_time_ms: 2000,
            },
            protocol: ProtocolConfig {
                udp_enabled: true,
                tcp_connect: true,
                tcp_listen: true,
                tcp_max_connections: 32,
            },
        },
    }
}

} // verus!
