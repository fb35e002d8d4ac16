use hickory_dns::load::{LoadStep, StoreAction, ZoneLoader, EMPTY_STORES};
use hickory_dns::path::UnixPath;
use hickory_dns::zone::{
    deserialize_with_file, store_config_default, store_config_visitor, AxfrPolicy,
    DnssecPolicyConfig, ExternalStoreConfig, FileConfig, FileFieldError, ForwardConfig,
    MapOrSequence, RecursiveConfig, ServerStoreConfig, ServerZoneConfig, SqliteConfig, ZoneConfig,
    ZoneConfigWithFile, ZoneType, ZoneTypeConfig,
};

fn file(path: &str) -> ServerStoreConfig {
    ServerStoreConfig::File(FileConfig { zone_path: UnixPath::new(path) })
}

fn sqlite(path: &str) -> ServerStoreConfig {
    ServerStoreConfig::Sqlite(SqliteConfig { zone_path: UnixPath::new(path) })
}

fn server(stores: Vec<ServerStoreConfig>) -> ServerZoneConfig {
    ServerZoneConfig { axfr_policy: AxfrPolicy::AllowAll, keys: 0, stores }
}

fn primary(stores: Vec<ServerStoreConfig>) -> ZoneConfig {
    ZoneConfig {
        zone: "example.com".to_string(),
        zone_type_config: ZoneTypeConfig::Primary(server(stores)),
    }
}

fn secondary(stores: Vec<ServerStoreConfig>) -> ZoneConfig {
    ZoneConfig {
        zone: "example.org".to_string(),
        zone_type_config: ZoneTypeConfig::Secondary(server(stores)),
    }
}

fn external(stores: Vec<ExternalStoreConfig>) -> ZoneConfig {
    ZoneConfig {
        zone: ".".to_string(),
        zone_type_config: ZoneTypeConfig::External { stores },
    }
}

fn recursor() -> ExternalStoreConfig {
    ExternalStoreConfig::Recursor(RecursiveConfig {
        ns_cache_size: 1024,
        response_cache_size: 1048576,
        dnssec_policy: DnssecPolicyConfig::SecurityUnaware,
    })
}

fn forward() -> ExternalStoreConfig {
    ExternalStoreConfig::Forward(ForwardConfig { cache_size: None })
}

fn entry(path: Option<&str>, config: ZoneConfig) -> ZoneConfigWithFile {
    ZoneConfigWithFile { file: path.map(UnixPath::new), config }
}

fn start(zone: ZoneConfig, validate_only: bool) -> ZoneLoader<u8> {
    zone.load_with_mode(Ok(()), validate_only).ok().unwrap()
}

#[test]
fn file_takes_the_place_of_the_default_store() {
    let zones =
        deserialize_with_file(vec![entry(Some("a.zone"), primary(vec![ServerStoreConfig::Default]))])
            .unwrap();
    assert_eq!(zones, vec![primary(vec![file("a.zone")])]);
    let config = zones[0].zone_type_config.as_server().unwrap();
    assert_eq!(config.file(), Some(&UnixPath::new("a.zone")));
}

#[test]
fn file_comes_after_other_stores() {
    let zones =
        deserialize_with_file(vec![entry(Some("a.zone"), secondary(vec![sqlite("b.zone")]))])
            .unwrap();
    assert_eq!(zones, vec![secondary(vec![sqlite("b.zone"), file("a.zone")])]);
    let config = zones[0].zone_type_config.as_server().unwrap();
    assert_eq!(config.file(), Some(&UnixPath::new("b.zone")));
}

#[test]
fn file_is_added_to_an_empty_list_and_after_two_defaults() {
    let zones = deserialize_with_file(vec![
        entry(Some("a"), primary(vec![])),
        entry(
            Some("b"),
            primary(vec![ServerStoreConfig::Default, ServerStoreConfig::Default]),
        ),
    ])
    .unwrap();
    assert_eq!(zones[0], primary(vec![file("a")]));
    assert_eq!(
        zones[1],
        primary(vec![ServerStoreConfig::Default, ServerStoreConfig::Default, file("b")])
    );
}

#[test]
fn entries_without_file_are_kept() {
    let zones = deserialize_with_file(vec![
        entry(None, primary(vec![file("a.zone")])),
        entry(None, external(vec![recursor()])),
    ])
    .unwrap();
    assert_eq!(zones, vec![primary(vec![file("a.zone")]), external(vec![recursor()])]);
}

#[test]
fn file_beside_a_file_store_is_ambiguous() {
    let err = deserialize_with_file(vec![entry(
        Some("a.zone"),
        primary(vec![sqlite("c.zone"), file("b.zone")]),
    )])
    .unwrap_err();
    assert_eq!(err, FileFieldError::Ambiguous);
    assert_eq!(
        err.message(),
        "having `file` and `[zones.store]` item with type `file` is ambiguous"
    );
}

#[test]
fn file_of_an_external_zone_is_refused() {
    let err = deserialize_with_file(vec![entry(Some("a.zone"), external(vec![forward()]))])
        .unwrap_err();
    assert_eq!(err, FileFieldError::NotServerZone);
    assert_eq!(err.message(), "cannot use `file` on a zone that is not primary or secondary");
}

#[test]
fn first_refused_file_decides() {
    let err = deserialize_with_file(vec![
        entry(None, primary(vec![])),
        entry(Some("a"), external(vec![])),
        entry(Some("a"), primary(vec![file("b")])),
    ])
    .unwrap_err();
    assert_eq!(err, FileFieldError::NotServerZone);
}

#[test]
fn stores_as_table_or_array() {
    assert_eq!(store_config_visitor(MapOrSequence::Table(file("a"))), vec![file("a")]);
    assert_eq!(
        store_config_visitor(MapOrSequence::Array(vec![file("a"), sqlite("b")])),
        vec![file("a"), sqlite("b")]
    );
    let none: Vec<ServerStoreConfig> = store_config_visitor(MapOrSequence::Array(vec![]));
    assert!(none.is_empty());
}

#[test]
fn default_stores() {
    let stores: Vec<ServerStoreConfig> = store_config_default();
    assert_eq!(stores, vec![ServerStoreConfig::Default]);
    let stores: Vec<ExternalStoreConfig> = store_config_default();
    assert_eq!(stores, vec![ExternalStoreConfig::Default]);
}

#[test]
fn zone_kinds() {
    assert_eq!(primary(vec![]).zone_type(), ZoneType::Primary);
    assert_eq!(secondary(vec![]).zone_type(), ZoneType::Secondary);
    assert_eq!(external(vec![]).zone_type(), ZoneType::External);
    assert!(external(vec![]).zone_type_config.as_server().is_none());
    assert_eq!(AxfrPolicy::default(), AxfrPolicy::Deny);
    assert_eq!(server(vec![]).axfr_policy(), AxfrPolicy::AllowAll);
    assert_eq!(server(vec![ServerStoreConfig::Default]).file(), None);
    assert!(!server(vec![]).is_dnssec_enabled());
    assert!(ServerZoneConfig { keys: 1, ..server(vec![]) }.is_dnssec_enabled());
}

#[test]
fn server_zone_opens_each_store() {
    let loader = start(primary(vec![file("a"), sqlite("b")]), false);
    assert_eq!(
        loader.pending(),
        LoadStep::Open(StoreAction::File {
            index: 0,
            zone_type: ZoneType::Primary,
            axfr_policy: AxfrPolicy::AllowAll,
        })
    );
    let loader = loader.store_opened(10);
    assert_eq!(
        loader.pending(),
        LoadStep::Open(StoreAction::Sqlite {
            index: 1,
            zone_type: ZoneType::Primary,
            axfr_policy: AxfrPolicy::AllowAll,
            dnssec_enabled: false,
        })
    );
    let loader = loader.store_opened(20);
    assert_eq!(loader.pending(), LoadStep::Done);
    assert_eq!(loader.finish(), vec![10, 20]);
}

#[test]
fn missing_store_is_rejected_when_it_is_reached() {
    let loader = start(secondary(vec![file("a"), ServerStoreConfig::Default]), false);
    assert!(matches!(loader.pending(), LoadStep::Open(StoreAction::File { index: 0, .. })));
    let loader = loader.store_opened(1);
    assert_eq!(loader.pending(), LoadStep::Reject);
    assert_eq!(loader.rejected(), "empty [[zones.stores]] in config");
    let loader = start(external(vec![ExternalStoreConfig::Default]), true);
    assert_eq!(loader.pending(), LoadStep::Reject);
    assert_eq!(loader.rejected(), EMPTY_STORES);
}

#[test]
fn external_zone_opens_each_store() {
    let loader = start(external(vec![ExternalStoreConfig::Blocklist, forward(), recursor()]), false);
    assert_eq!(loader.pending(), LoadStep::Open(StoreAction::Blocklist { index: 0 }));
    let loader = loader.store_opened(1);
    assert_eq!(loader.pending(), LoadStep::Open(StoreAction::Forward { index: 1 }));
    let loader = loader.store_opened(2);
    assert_eq!(
        loader.pending(),
        LoadStep::Open(StoreAction::Recursor { index: 2, zone_type: ZoneType::External })
    );
    let loader = loader.store_opened(3);
    assert_eq!(loader.pending(), LoadStep::Done);
    assert_eq!(loader.finish(), vec![1, 2, 3]);
}

#[test]
fn validation_skips_recursors_only() {
    let loader = start(external(vec![recursor(), ExternalStoreConfig::Blocklist]), true);
    assert_eq!(loader.pending(), LoadStep::SkipRecursor { index: 0 });
    let loader = loader.store_skipped();
    assert_eq!(loader.pending(), LoadStep::Open(StoreAction::Blocklist { index: 1 }));
    let loader = loader.store_opened(5);
    assert_eq!(loader.pending(), LoadStep::Done);
    assert_eq!(loader.finish(), vec![5]);
}

#[test]
fn zone_without_stores_has_no_handlers() {
    let loader = start(primary(vec![]), false);
    assert_eq!(loader.pending(), LoadStep::Done);
    assert!(loader.finish().is_empty());
}

#[test]
fn zone_name_that_cannot_be_read() {
    let res: Result<ZoneLoader<u8>, String> =
        primary(vec![]).load_with_mode(Err("bad label".to_string()), false);
    assert_eq!(res.err().unwrap(), "failed to read zone name: bad label");
}
