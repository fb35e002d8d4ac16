//! Zones: what a configuration says of them.
use vstd::prelude::*;
use vstd::string::*;

use crate::path::UnixPath;

verus! {

/// Who may transfer a whole zone.
#[derive(Clone, Copy, Debug, PartialEq, Eq, Structural)]
pub enum AxfrPolicy {
    Deny,
    AllowAll,
    AllowSigned,
}

impl Default for AxfrPolicy {
    /// All transfers are rejected.
    fn default() -> (res: Self)
        ensures
            res == AxfrPolicy::Deny,
    {
        AxfrPolicy::Deny
    }
}

/// The role that the server has for a zone.
#[derive(Clone, Copy, Debug, PartialEq, Eq, Structural)]
pub enum ZoneType {
    Primary,
    Secondary,
    External,
}

/// A zone that is read from a zone file.
#[derive(Debug, PartialEq, Eq)]
pub struct FileConfig {
    pub zone_path: UnixPath,
}

/// A zone that is kept in a database, first filled from a zone file.
#[derive(Debug, PartialEq, Eq)]
pub struct SqliteConfig {
    pub zone_path: UnixPath,
}

/// The stores of primary and secondary zones.
#[derive(Debug, PartialEq, Eq)]
pub enum ServerStoreConfig {
    File(FileConfig),
    Sqlite(SqliteConfig),
    /// No store was configured.
    Default,
}

impl Default for ServerStoreConfig {
    /// No store.
    fn default() -> (res: Self)
        ensures
            res is Default,
    {
        ServerStoreConfig::Default
    }
}

/// A forwarding resolver: the size of its cache, where its options were given.
#[derive(Clone, Copy, Debug, PartialEq, Eq, Structural)]
pub struct ForwardConfig {
    pub cache_size: Option<u64>,
}

/// How a recursor treats DNSSEC.
#[derive(Clone, Copy, Debug, PartialEq, Eq, Structural)]
pub enum DnssecPolicyConfig {
    SecurityUnaware,
    ValidationDisabled,
    ValidateWithStaticKey { validation_cache_size: Option<usize> },
}

/// A recursive resolver: the sizes of its caches.
#[derive(Clone, Copy, Debug, PartialEq, Eq, Structural)]
pub struct RecursiveConfig {
    pub ns_cache_size: usize,
    pub response_cache_size: u64,
    pub dnssec_policy: DnssecPolicyConfig,
}

/// The stores of external zones.
#[derive(Clone, Copy, Debug, PartialEq, Eq, Structural)]
pub enum ExternalStoreConfig {
    Blocklist,
    Forward(ForwardConfig),
    Recursor(RecursiveConfig),
    /// No store was configured.
    Default,
}

impl Default for ExternalStoreConfig {
    /// No store.
    fn default() -> (res: Self)
        ensures
            res is Default,
    {
        ExternalStoreConfig::Default
    }
}

/// A zone that the server answers for itself.
#[derive(Debug, PartialEq, Eq)]
pub struct ServerZoneConfig {
    /// Whether transfers of the zone are allowed.
    pub axfr_policy: AxfrPolicy,
    /// The number of keys that sign the zone.
    pub keys: usize,
    /// The stores of the zone, in the order in which they are asked.
    pub stores: Vec<ServerStoreConfig>,
}

/// What a zone is, with what belongs to that kind.
#[derive(Debug, PartialEq, Eq)]
pub enum ZoneTypeConfig {
    Primary(ServerZoneConfig),
    Secondary(ServerZoneConfig),
    External { stores: Vec<ExternalStoreConfig> },
}

/// Configuration for a zone.
#[derive(Debug, PartialEq, Eq)]
pub struct ZoneConfig {
    /// The name of the zone.
    pub zone: String,
    /// The kind of the zone.
    pub zone_type_config: ZoneTypeConfig,
}

/// A zone as a configuration file gives it, with the `file` shorthand for a store.
#[derive(Debug, PartialEq, Eq)]
pub struct ZoneConfigWithFile {
    pub file: Option<UnixPath>,
    pub config: ZoneConfig,
}

/// Why the `file` shorthand was refused.
#[derive(Clone, Copy, Debug, PartialEq, Eq, Structural)]
pub enum FileFieldError {
    /// There is a store of type `file` already.
    Ambiguous,
    /// The zone has no zone file at all.
    NotServerZone,
}

impl FileFieldError {
    /// The text of the error.
    pub open spec fn text(self) -> Seq<char> {
        match self {
            FileFieldError::Ambiguous =>
                "having `file` and `[zones.store]` item with type `file` is ambiguous"@,
            FileFieldError::NotServerZone =>
                "cannot use `file` on a zone that is not primary or secondary"@,
        }
    }

    /// The text of the error.
    pub fn message(&self) -> (res: String)
        ensures
            res@ == self.text(),
    {
        match self {
            FileFieldError::Ambiguous =>
                "having `file` and `[zones.store]` item with type `file` is ambiguous".to_string(),
            FileFieldError::NotServerZone =>
                "cannot use `file` on a zone that is not primary or secondary".to_string(),
        }
    }
}

/// Whether one of the stores is of type `file`.
pub open spec fn has_file_store(stores: Seq<ServerStoreConfig>) -> bool {
    exists|i: int| 0 <= i < stores.len() && (#[trigger] stores[i]) is File
}

/// The stores of a zone once its `file` is one of them: it takes the place of a lone missing
/// store, and otherwise comes last.
pub open spec fn with_file_store(
    stores: Seq<ServerStoreConfig>,
    file: UnixPath,
) -> Seq<ServerStoreConfig> {
    let store = ServerStoreConfig::File(FileConfig { zone_path: file });
    if stores.len() == 1 && stores[0] is Default {
        seq![store]
    } else {
        stores.push(store)
    }
}

impl ServerZoneConfig {
    /// Whether `self` is `before` with `file` as one of its stores.
    pub open spec fn has_file_added(self, before: ServerZoneConfig, file: UnixPath) -> bool {
        &&& self.axfr_policy == before.axfr_policy
        &&& self.keys == before.keys
        &&& self.stores@ == with_file_store(before.stores@, file)
    }
}

impl ZoneConfigWithFile {
    /// Why the `file` of this entry is refused, if it is.
    pub open spec fn refusal(self) -> Option<FileFieldError> {
        match self.file {
            None => None,
            Some(_) => match self.config.zone_type_config {
                ZoneTypeConfig::Primary(server) | ZoneTypeConfig::Secondary(server) =>
                    if has_file_store(server.stores@) {
                        Some(FileFieldError::Ambiguous)
                    } else {
                        None
                    },
                ZoneTypeConfig::External { .. } => Some(FileFieldError::NotServerZone),
            },
        }
    }

    /// Whether `zone` is what this entry says, where its `file` is not refused.
    pub open spec fn resolves_to(self, zone: ZoneConfig) -> bool {
        match self.file {
            None => zone == self.config,
            Some(file) => {
                &&& zone.zone == self.config.zone
                &&& match (self.config.zone_type_config, zone.zone_type_config) {
                    (ZoneTypeConfig::Primary(before), ZoneTypeConfig::Primary(after)) =>
                        after.has_file_added(before, file),
                    (ZoneTypeConfig::Secondary(before), ZoneTypeConfig::Secondary(after)) =>
                        after.has_file_added(before, file),
                    _ => false,
                }
            },
        }
    }
}

/// Adds `file` to the stores of a primary or secondary zone.
fn add_file(server: ServerZoneConfig, file: UnixPath) -> (res: Result<
    ServerZoneConfig,
    FileFieldError,
>)
    ensures
        match res {
            Ok(after) => !has_file_store(server.stores@) && after.has_file_added(server, file),
            Err(err) => has_file_store(server.stores@) && err == FileFieldError::Ambiguous,
        },
{
    let ServerZoneConfig { axfr_policy, keys, mut stores } = server;
    let ghost before = stores@;
    let mut i: usize = 0;
    while i < stores.len()
        invariant
            i <= stores@.len(),
            stores@ == server.stores@,
            forall|k: int| 0 <= k < i ==> !((#[trigger] stores@[k]) is File),
        decreases stores@.len() - i,
    {
        if let ServerStoreConfig::File(_) = &stores[i] {
            assert(server.stores@[i as int] is File);
            return Err(FileFieldError::Ambiguous);
        }
        i = i + 1;
    }
    let lone_default = stores.len() == 1 && matches!(&stores[0], ServerStoreConfig::Default);
    if lone_default {
        stores.clear();
    }
    stores.push(ServerStoreConfig::File(FileConfig { zone_path: file }));
    proof {
        assert(stores@ =~= with_file_store(before, file));
    }
    Ok(ServerZoneConfig { axfr_policy, keys, stores })
}

/// Turns one entry of a configuration file into the zone that it stands for.
pub fn resolve_file(entry: ZoneConfigWithFile) -> (res: Result<ZoneConfig, FileFieldError>)
    ensures
        match res {
            Ok(zone) => entry.refusal() is None && entry.resolves_to(zone),
            Err(err) => entry.refusal() == Some(err),
        },
{
    let ZoneConfigWithFile { file, config } = entry;
    match file {
        None => Ok(config),
        Some(file) => {
            let ZoneConfig { zone, zone_type_config } = config;
            match zone_type_config {
                ZoneTypeConfig::Primary(server) => match add_file(server, file) {
                    Ok(after) => Ok(
                        ZoneConfig { zone, zone_type_config: ZoneTypeConfig::Primary(after) },
                    ),
                    Err(err) => Err(err),
                },
                ZoneTypeConfig::Secondary(server) => match add_file(server, file) {
                    Ok(after) => Ok(
                        ZoneConfig { zone, zone_type_config: ZoneTypeConfig::Secondary(after) },
                    ),
                    Err(err) => Err(err),
                },
                ZoneTypeConfig::External { .. } => Err(FileFieldError::NotServerZone),
            }
        },
    }
}

/// Turns the entries of a configuration file into zones, in order. The first entry whose `file`
/// is refused decides the error.
pub fn deserialize_with_file(entries: Vec<ZoneConfigWithFile>) -> (res: Result<
    Vec<ZoneConfig>,
    FileFieldError,
>)
    ensures
        match res {
            Ok(zones) => {
                &&& zones@.len() == entries@.len()
                &&& forall|i: int|
                    0 <= i < entries@.len() ==> (#[trigger] entries@[i]).refusal() is None
                        && entries@[i].resolves_to(zones@[i])
            },
            Err(err) => exists|i: int|
                0 <= i < entries@.len() && (#[trigger] entries@[i]).refusal() == Some(err)
                    && forall|k: int|
                    0 <= k < i ==> (#[trigger] entries@[k]).refusal() is None,
        },
{
    let ghost all = entries@;
    let mut zones: Vec<ZoneConfig> = Vec::new();
    for entry in it: entries
        invariant
            it.seq() == all,
            zones@.len() == it.index(),
            forall|i: int|
                0 <= i < it.index() ==> (#[trigger] all[i]).refusal() is None && all[i].resolves_to(
                    zones@[i],
                ),
    {
        assert(entry == all[it.index() as int]);
        match resolve_file(entry) {
            Ok(zone) => {
                zones.push(zone);
            },
            Err(err) => {
                return Err(err);
            },
        }
    }
    Ok(zones)
}

/// What a configuration file gives as the stores of a zone.
#[derive(Debug, PartialEq, Eq)]
pub enum MapOrSequence<S> {
    /// One table.
    Table(S),
    /// An array of tables.
    Array(Vec<S>),
}

/// The stores of a zone: one table is a list of one.
pub fn store_config_visitor<S>(given: MapOrSequence<S>) -> (res: Vec<S>)
    ensures
        res@ == match given {
            MapOrSequence::Table(store) => seq![store],
            MapOrSequence::Array(stores) => stores@,
        },
{
    match given {
        MapOrSequence::Table(store) => {
            let mut res: Vec<S> = Vec::new();
            res.push(store);
            assert(res@ =~= seq![store]);
            res
        },
        MapOrSequence::Array(stores) => stores,
    }
}

/// The stores of a zone that gives none: one default store.
pub fn store_config_default<S: Default>() -> (res: Vec<S>)
    ensures
        res@.len() == 1,
        call_ensures(S::default, (), res@[0]),
{
    let mut res: Vec<S> = Vec::new();
    res.push(S::default());
    res
}

/// The path of the zone file of the first store that has one.
pub open spec fn first_zone_path(stores: Seq<ServerStoreConfig>) -> Option<UnixPath>
    decreases stores.len(),
{
    if stores.len() == 0 {
        None
    } else {
        match stores[0] {
            ServerStoreConfig::File(config) => Some(config.zone_path),
            ServerStoreConfig::Sqlite(config) => Some(config.zone_path),
            ServerStoreConfig::Default => first_zone_path(stores.drop_first()),
        }
    }
}

impl ServerZoneConfig {
    /// The zone file, that is the records that the zone has when it is first loaded.
    pub fn file(&self) -> (res: Option<&UnixPath>)
        ensures
            match res {
                Some(path) => first_zone_path(self.stores@) == Some(*path),
                None => first_zone_path(self.stores@) is None,
            },
    {
        let mut i: usize = 0;
        proof {
            assert(self.stores@.skip(0) =~= self.stores@);
        }
        while i < self.stores.len()
            invariant
                i <= self.stores@.len(),
                first_zone_path(self.stores@) == first_zone_path(self.stores@.skip(i as int)),
            decreases self.stores@.len() - i,
        {
            proof {
                assert(self.stores@.skip(i as int).drop_first() =~= self.stores@.skip(i + 1));
            }
            match &self.stores[i] {
                ServerStoreConfig::File(config) => {
                    return Some(&config.zone_path);
                },
                ServerStoreConfig::Sqlite(config) => {
                    return Some(&config.zone_path);
                },
                ServerStoreConfig::Default => {},
            }
            i = i + 1;
        }
        None
    }

    /// How requests for a transfer of the zone are treated.
    pub fn axfr_policy(&self) -> (res: AxfrPolicy)
        ensures
            res == self.axfr_policy,
    {
        self.axfr_policy
    }

    /// Whether the zone is signed: it is where there are keys to sign it.
    pub fn is_dnssec_enabled(&self) -> (res: bool)
        ensures
            res == (self.keys > 0),
    {
        self.keys > 0
    }
}

impl ZoneTypeConfig {
    /// The configuration of a zone that the server answers for itself.
    pub fn as_server(&self) -> (res: Option<&ServerZoneConfig>)
        ensures
            match *self {
                ZoneTypeConfig::Primary(server) | ZoneTypeConfig::Secondary(server) => res == Some(
                    &server,
                ),
                ZoneTypeConfig::External { .. } => res is None,
            },
    {
        match self {
            ZoneTypeConfig::Primary(server) => Some(server),
            ZoneTypeConfig::Secondary(server) => Some(server),
            ZoneTypeConfig::External { .. } => None,
        }
    }

    /// The role that the server has for the zone.
    pub open spec fn role(self) -> ZoneType {
        match self {
            ZoneTypeConfig::Primary(_) => ZoneType::Primary,
            ZoneTypeConfig::Secondary(_) => ZoneType::Secondary,
            ZoneTypeConfig::External { .. } => ZoneType::External,
        }
    }
}

impl ZoneConfig {
    /// The type of the zone.
    pub fn zone_type(&self) -> (res: ZoneType)
        ensures
            res == self.zone_type_config.role(),
    {
        match &self.zone_type_config {
            ZoneTypeConfig::Primary(_) => ZoneType::Primary,
            ZoneTypeConfig::Secondary(_) => ZoneType::Secondary,
            ZoneTypeConfig::External { .. } => ZoneType::External,
        }
    }
}

proof fn count_files_in_push(stores: Seq<ServerStoreConfig>, store: ServerStoreConfig)
    ensures
        count_files(stores.push(store)) == count_files(stores) + if store is File {
            1int
        } else {
            0
        },
{
    assert(stores.push(store).drop_last() =~= stores);
}

/// The number of stores of type `file`.
pub open spec fn count_files(stores: Seq<ServerStoreConfig>) -> int
    decreases stores.len(),
{
    if stores.len() == 0 {
        0
    } else {
        count_files(stores.drop_last()) + if stores.last() is File {
            1int
        } else {
            0
        }
    }
}

proof fn no_files_counted(stores: Seq<ServerStoreConfig>)
    requires
        !has_file_store(stores),
    ensures
        count_files(stores) == 0,
    decreases stores.len(),
{
    if stores.len() > 0 {
        assert(!(stores[stores.len() - 1] is File));
        assert forall|i: int| 0 <= i < stores.drop_last().len() implies !((
        #[trigger] stores.drop_last()[i]) is File) by {
            assert(!(stores[i] is File));
        }
        no_files_counted(stores.drop_last());
    }
}

/// Where the `file` of a zone is accepted, the zone ends up with exactly one store of type
/// `file`, the last one, and it holds that path.
pub proof fn accepted_file_is_the_only_file_store(
    before: ServerZoneConfig,
    after: ServerZoneConfig,
    file: UnixPath,
)
    requires
        !has_file_store(before.stores@),
        after.has_file_added(before, file),
    ensures
        count_files(after.stores@) == 1,
        after.stores@.last() == ServerStoreConfig::File(FileConfig { zone_path: file }),
{
    let store = ServerStoreConfig::File(FileConfig { zone_path: file });
    no_files_counted(before.stores@);
    if before.stores@.len() == 1 && before.stores@[0] is Default {
        assert(seq![store] =~= Seq::<ServerStoreConfig>::empty().push(store));
        count_files_in_push(Seq::empty(), store);
    } else {
        count_files_in_push(before.stores@, store);
    }
}

/// A zone that gives a `file` and no store is read from that file.
pub proof fn file_alone_is_the_zone_file(
    before: ServerZoneConfig,
    after: ServerZoneConfig,
    file: UnixPath,
)
    requires
        before.stores@.len() == 1,
        before.stores@[0] is Default,
        after.has_file_added(before, file),
    ensures
        first_zone_path(after.stores@) == Some(file),
{
}

/// Whether `after` is `before` and then a store that reads `file`, which takes the place of a lone
/// missing store.
pub open spec fn stores_read_file_too(
    before: Seq<ServerStoreConfig>,
    after: Seq<ServerStoreConfig>,
    file: UnixPath,
) -> bool {
    &&& after.len() > 0
    &&& after[after.len() - 1] matches ServerStoreConfig::File(config) && config.zone_path == file
    &&& if before.len() == 1 && before[0] is Default {
        after.len() == 1
    } else {
        &&& after.len() == before.len() + 1
        &&& forall|i: int| 0 <= i < before.len() ==> #[trigger] after[i] == before[i]
    }
}

/// Whether `after` is the zone `before` with a `file` beside it.
pub open spec fn zone_reads_file_too(
    before: ServerZoneConfig,
    after: ServerZoneConfig,
    file: UnixPath,
) -> bool {
    &&& after.axfr_policy == before.axfr_policy
    &&& after.keys == before.keys
    &&& stores_read_file_too(before.stores@, after.stores@, file)
}

/// Whether `res` is what an entry of a configuration file stands for. One without a `file` is its
/// zone. A `file` is refused for an external zone, and beside a store of type `file`; otherwise it
/// becomes the last store of a zone that keeps its name, its kind, its policy and its keys.
pub open spec fn entry_means(
    entry: ZoneConfigWithFile,
    res: Result<ZoneConfig, FileFieldError>,
) -> bool {
    match entry.file {
        None => res == Ok::<ZoneConfig, FileFieldError>(entry.config),
        Some(file) => match entry.config.zone_type_config {
            ZoneTypeConfig::External { .. } => res == Err::<ZoneConfig, FileFieldError>(
                FileFieldError::NotServerZone,
            ),
            ZoneTypeConfig::Primary(before) => if exists|i: int|
                0 <= i < before.stores@.len() && (#[trigger] before.stores@[i]) is File {
                res == Err::<ZoneConfig, FileFieldError>(FileFieldError::Ambiguous)
            } else {
                &&& res matches Ok(zone)
                &&& zone.zone == entry.config.zone
                &&& zone.zone_type_config matches ZoneTypeConfig::Primary(after)
                &&& zone_reads_file_too(before, after, file)
            },
            ZoneTypeConfig::Secondary(before) => if exists|i: int|
                0 <= i < before.stores@.len() && (#[trigger] before.stores@[i]) is File {
                res == Err::<ZoneConfig, FileFieldError>(FileFieldError::Ambiguous)
            } else {
                &&& res matches Ok(zone)
                &&& zone.zone == entry.config.zone
                &&& zone.zone_type_config matches ZoneTypeConfig::Secondary(after)
                &&& zone_reads_file_too(before, after, file)
            },
        },
    }
}

/// Every entry of a configuration file is given its meaning.
pub proof fn file_becomes_the_last_store(
    entry: ZoneConfigWithFile,
    res: Result<ZoneConfig, FileFieldError>,
)
    requires
        call_ensures(resolve_file, (entry,), res),
    ensures
        entry_means(entry, res),
{
    resolution_is_meaning(entry, res);
}

/// A list of entries stands for the zones that they stand for one by one, in order; where one is
/// refused, the first such entry decides the error.
pub proof fn entries_are_taken_one_by_one(
    entries: Vec<ZoneConfigWithFile>,
    res: Result<Vec<ZoneConfig>, FileFieldError>,
)
    requires
        call_ensures(deserialize_with_file, (entries,), res),
    ensures
        match res {
            Ok(zones) => zones@.len() == entries@.len() && forall|i: int|
                0 <= i < entries@.len() ==> entry_means(#[trigger] entries@[i], Ok(zones@[i])),
            Err(err) => exists|i: int|
                0 <= i < entries@.len() && entry_means(#[trigger] entries@[i], Err(err))
                    && forall|k: int|
                    0 <= k < i ==> !entry_means(
                        #[trigger] entries@[k],
                        Err(FileFieldError::Ambiguous),
                    ) && !entry_means(entries@[k], Err(FileFieldError::NotServerZone)),
        },
{
    match res {
        Ok(zones) => {
            assert forall|i: int| 0 <= i < entries@.len() implies entry_means(
                #[trigger] entries@[i],
                Ok(zones@[i]),
            ) by {
                resolution_is_meaning(entries@[i], Ok(zones@[i]));
            }
        },
        Err(err) => {
            let i = choose|i: int|
                0 <= i < entries@.len() && (#[trigger] entries@[i]).refusal() == Some(err)
                    && forall|k: int| 0 <= k < i ==> (#[trigger] entries@[k]).refusal() is None;
            resolution_is_meaning(entries@[i], Err(err));
            assert forall|k: int| 0 <= k < i implies !entry_means(
                #[trigger] entries@[k],
                Err(FileFieldError::Ambiguous),
            ) && !entry_means(entries@[k], Err(FileFieldError::NotServerZone)) by {
                assert(entries@[k].refusal() is None);
            }
        },
    }
}

proof fn resolution_is_meaning(entry: ZoneConfigWithFile, res: Result<ZoneConfig, FileFieldError>)
    requires
        match res {
            Ok(zone) => entry.refusal() is None && entry.resolves_to(zone),
            Err(err) => entry.refusal() == Some(err),
        },
    ensures
        entry_means(entry, res),
{
}

proof fn first_path_found(stores: Seq<ServerStoreConfig>)
    ensures
        match first_zone_path(stores) {
            Some(path) => exists|i: int|
                0 <= i < stores.len() && names_path(#[trigger] stores[i], path) && forall|k: int|
                    0 <= k < i ==> (#[trigger] stores[k]) is Default,
            None => forall|k: int| 0 <= k < stores.len() ==> (#[trigger] stores[k]) is Default,
        },
    decreases stores.len(),
{
    if stores.len() > 0 {
        let rest = stores.drop_first();
        if stores[0] is Default {
            first_path_found(rest);
            match first_zone_path(rest) {
                Some(path) => {
                    let i = choose|i: int|
                        0 <= i < rest.len() && names_path(#[trigger] rest[i], path) && forall|k: int|
                            0 <= k < i ==> (#[trigger] rest[k]) is Default;
                    assert(names_path(stores[i + 1], path));
                    assert forall|k: int| 0 <= k < i + 1 implies (
                    #[trigger] stores[k]) is Default by {
                        if k > 0 {
                            assert(rest[k - 1] is Default);
                        }
                    }
                },
                None => {
                    assert forall|k: int| 0 <= k < stores.len() implies (
                    #[trigger] stores[k]) is Default by {
                        if k > 0 {
                            assert(rest[k - 1] is Default);
                        }
                    }
                },
            }
        } else {
            assert(names_path(stores[0], first_zone_path(stores)->0));
        }
    }
}

/// Whether a store is filled from the zone file at `path`.
pub open spec fn names_path(store: ServerStoreConfig, path: UnixPath) -> bool {
    match store {
        ServerStoreConfig::File(config) => config.zone_path == path,
        ServerStoreConfig::Sqlite(config) => config.zone_path == path,
        ServerStoreConfig::Default => false,
    }
}

/// The zone file is that of the first store that has one, be it a file or a database.
pub proof fn zone_file_is_of_the_first_store(server: &ServerZoneConfig, res: Option<&UnixPath>)
    requires
        call_ensures(ServerZoneConfig::file, (server,), res),
    ensures
        match res {
            Some(path) => exists|i: int|
                0 <= i < server.stores@.len() && names_path(#[trigger] server.stores@[i], *path)
                    && forall|k: int| 0 <= k < i ==> (#[trigger] server.stores@[k]) is Default,
            None => forall|k: int|
                0 <= k < server.stores@.len() ==> (#[trigger] server.stores@[k]) is Default,
        },
{
    first_path_found(server.stores@);
}

/// A zone says of itself what its configuration says: its kind, its policy, and that it is signed
/// where it has a key.
pub proof fn zones_say_what_they_are(
    zone: &ZoneConfig,
    server: &ServerZoneConfig,
    kind: ZoneType,
    as_server: Option<&ServerZoneConfig>,
    policy: AxfrPolicy,
    signed: bool,
)
    requires
        call_ensures(ZoneConfig::zone_type, (zone,), kind),
        call_ensures(ZoneTypeConfig::as_server, (&zone.zone_type_config,), as_server),
        call_ensures(ServerZoneConfig::axfr_policy, (server,), policy),
        call_ensures(ServerZoneConfig::is_dnssec_enabled, (server,), signed),
    ensures
        kind == ZoneType::Primary <==> zone.zone_type_config is Primary,
        kind == ZoneType::Secondary <==> zone.zone_type_config is Secondary,
        kind == ZoneType::External <==> zone.zone_type_config is External,
        zone.zone_type_config matches ZoneTypeConfig::Primary(config) ==> as_server == Some(&config),
        zone.zone_type_config matches ZoneTypeConfig::Secondary(config) ==> as_server == Some(
            &config,
        ),
        zone.zone_type_config is External ==> as_server is None,
        policy == server.axfr_policy,
        signed <==> server.keys != 0,
{
}

/// One table of stores is a list of that store, and an array of tables is the list itself.
pub proof fn stores_are_taken_as_given<S>(given: MapOrSequence<S>, res: Vec<S>)
    requires
        call_ensures(store_config_visitor::<S>, (given,), res),
    ensures
        given matches MapOrSequence::Table(store) ==> res@.len() == 1 && res@[0] == store,
        given matches MapOrSequence::Array(stores) ==> res@ == stores@,
{
}

/// A zone that gives no stores has one that is not configured, whatever its kind.
pub proof fn missing_stores_are_one_default(
    server: Vec<ServerStoreConfig>,
    external: Vec<ExternalStoreConfig>,
)
    requires
        call_ensures(store_config_default::<ServerStoreConfig>, (), server),
        call_ensures(store_config_default::<ExternalStoreConfig>, (), external),
    ensures
        server@.len() == 1 && server@[0] is Default,
        external@.len() == 1 && external@[0] is Default,
{
}

/// The two ways in which a `file` is refused are told apart.
pub proof fn refused_files_are_told_apart(err: &FileFieldError, res: String)
    requires
        call_ensures(FileFieldError::message, (err,), res),
    ensures
        *err is Ambiguous ==> res@
            == "having `file` and `[zones.store]` item with type `file` is ambiguous"@,
        *err is NotServerZone ==> res@
            == "cannot use `file` on a zone that is not primary or secondary"@,
{
}

} // verus!
