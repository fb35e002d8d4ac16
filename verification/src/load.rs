//! Loading the stores of a zone, one after the other.
use vstd::prelude::*;
use vstd::string::*;

use crate::zone::{
    AxfrPolicy, ExternalStoreConfig, ServerStoreConfig, ServerZoneConfig, ZoneConfig, ZoneType,
    ZoneTypeConfig,
};

verus! {

/// What is reported of a store that was not configured.
pub const EMPTY_STORES: &'static str = "empty [[zones.stores]] in config";

/// A store to open, by its position among the stores of its zone.
#[derive(Clone, Copy, Debug, PartialEq, Eq, Structural)]
pub enum StoreAction {
    /// Open the database, then load the keys of the zone into its handler.
    Sqlite { index: usize, zone_type: ZoneType, axfr_policy: AxfrPolicy, dnssec_enabled: bool },
    /// Read the zone file, then load the keys of the zone into its handler.
    File { index: usize, zone_type: ZoneType, axfr_policy: AxfrPolicy },
    /// Read the block lists.
    Blocklist { index: usize },
    /// Set up the forwarder.
    Forward { index: usize },
    /// Set up the recursor.
    Recursor { index: usize, zone_type: ZoneType },
}

/// What is to be done next for a zone.
#[derive(Clone, Copy, Debug, PartialEq, Eq, Structural)]
pub enum LoadStep {
    /// Open a store, and hand its handler back.
    Open(StoreAction),
    /// Pass over the recursor at this position: it would start a task and write state files.
    SkipRecursor { index: usize },
    /// Give up: the store was not configured.
    Reject,
    /// Every store was dealt with.
    Done,
}

/// The number of stores of a zone.
pub open spec fn store_count(zone: ZoneTypeConfig) -> nat {
    match zone {
        ZoneTypeConfig::Primary(server) | ZoneTypeConfig::Secondary(server) => server.stores@.len(),
        ZoneTypeConfig::External { stores } => stores@.len(),
    }
}

proof fn store_count_fits(zone: ZoneTypeConfig)
    ensures
        store_count(zone) <= usize::MAX,
{
    match zone {
        ZoneTypeConfig::Primary(server) | ZoneTypeConfig::Secondary(server) => {
            assert(server.stores.len() == server.stores@.len());
        },
        ZoneTypeConfig::External { stores } => {
            assert(stores.len() == stores@.len());
        },
    }
}

/// What is done for the store at `position`.
pub open spec fn load_step(zone: ZoneTypeConfig, validate_only: bool, position: int) -> LoadStep {
    let index = position as usize;
    if position >= store_count(zone) {
        LoadStep::Done
    } else {
        match zone {
            ZoneTypeConfig::Primary(server) | ZoneTypeConfig::Secondary(server) =>
                match server.stores@[position] {
                    ServerStoreConfig::Sqlite(_) => LoadStep::Open(
                        StoreAction::Sqlite {
                            index,
                            zone_type: zone.role(),
                            axfr_policy: server.axfr_policy,
                            dnssec_enabled: server.keys > 0,
                        },
                    ),
                    ServerStoreConfig::File(_) => LoadStep::Open(
                        StoreAction::File {
                            index,
                            zone_type: zone.role(),
                            axfr_policy: server.axfr_policy,
                        },
                    ),
                    ServerStoreConfig::Default => LoadStep::Reject,
                },
            ZoneTypeConfig::External { stores } => match stores@[position] {
                ExternalStoreConfig::Blocklist => LoadStep::Open(StoreAction::Blocklist { index }),
                ExternalStoreConfig::Forward(_) => LoadStep::Open(StoreAction::Forward { index }),
                ExternalStoreConfig::Recursor(_) => if validate_only {
                    LoadStep::SkipRecursor { index }
                } else {
                    LoadStep::Open(StoreAction::Recursor { index, zone_type: zone.role() })
                },
                ExternalStoreConfig::Default => LoadStep::Reject,
            },
        }
    }
}

/// How many of the first `n` stores are opened.
pub open spec fn opened(zone: ZoneTypeConfig, validate_only: bool, n: int) -> nat
    decreases n,
{
    if n <= 0 {
        0
    } else {
        opened(zone, validate_only, n - 1) + if load_step(zone, validate_only, n - 1) is Open {
            1nat
        } else {
            0
        }
    }
}

/// The loading of a zone: the stores that were dealt with, and their handlers.
pub struct ZoneLoader<H> {
    config: ZoneConfig,
    validate_only: bool,
    position: usize,
    handlers: Vec<H>,
}

impl ZoneConfig {
    /// Starts to load the zone. With `validate_only` recursors are passed over; every other store
    /// is opened, so that what is missing shows. `zone_name` says whether the name of the zone
    /// can be read, and otherwise why not.
    pub fn load_with_mode<H>(self, zone_name: Result<(), String>, validate_only: bool) -> (res:
        Result<ZoneLoader<H>, String>)
        ensures
            match (zone_name, res) {
                (Ok(_), Ok(loader)) => {
                    &&& loader.config() == self
                    &&& loader.validate_only() == validate_only
                    &&& loader.position() == 0
                    &&& loader.handlers() == Seq::<H>::empty()
                },
                (Err(err), Err(text)) => text@ == "failed to read zone name: "@ + err@,
                _ => false,
            },
    {
        match zone_name {
            Ok(_) => Ok(
                ZoneLoader { config: self, validate_only, position: 0, handlers: Vec::new() },
            ),
            Err(err) => {
                let mut text = "failed to read zone name: ".to_string();
                text.append(err.as_str());
                Err(text)
            },
        }
    }
}

impl<H> ZoneLoader<H> {
    /// The zone that is loaded.
    pub closed spec fn config(self) -> ZoneConfig {
        self.config
    }

    /// Whether the zone is only looked at.
    pub closed spec fn validate_only(self) -> bool {
        self.validate_only
    }

    /// The number of stores that were dealt with.
    pub closed spec fn position(self) -> int {
        self.position as int
    }

    /// The handlers of the stores that were opened, in order.
    pub closed spec fn handlers(self) -> Seq<H> {
        self.handlers@
    }

    /// What is to be done next.
    pub open spec fn next(self) -> LoadStep {
        load_step(self.config().zone_type_config, self.validate_only(), self.position())
    }

    #[verifier::type_invariant]
    spec fn well_formed(self) -> bool {
        let zone = self.config.zone_type_config;
        &&& self.position <= store_count(zone)
        &&& self.handlers@.len() == opened(zone, self.validate_only, self.position as int)
        &&& forall|i: int|
            0 <= i < self.position ==> !((#[trigger] load_step(zone, self.validate_only, i)) is Reject)
    }

    /// What is to be done next.
    pub fn pending(&self) -> (res: LoadStep)
        ensures
            res == self.next(),
    {
        let index = self.position;
        let zone_type = self.config.zone_type();
        match &self.config.zone_type_config {
            ZoneTypeConfig::Primary(server) | ZoneTypeConfig::Secondary(server) => {
                if index >= server.stores.len() {
                    return LoadStep::Done;
                }
                let axfr_policy = server.axfr_policy();
                match &server.stores[index] {
                    ServerStoreConfig::Sqlite(_) => LoadStep::Open(
                        StoreAction::Sqlite {
                            index,
                            zone_type,
                            axfr_policy,
                            dnssec_enabled: server.is_dnssec_enabled(),
                        },
                    ),
                    ServerStoreConfig::File(_) => LoadStep::Open(
                        StoreAction::File { index, zone_type, axfr_policy },
                    ),
                    ServerStoreConfig::Default => LoadStep::Reject,
                }
            },
            ZoneTypeConfig::External { stores } => {
                if index >= stores.len() {
                    return LoadStep::Done;
                }
                match &stores[index] {
                    ExternalStoreConfig::Blocklist => LoadStep::Open(
                        StoreAction::Blocklist { index },
                    ),
                    ExternalStoreConfig::Forward(_) => LoadStep::Open(
                        StoreAction::Forward { index },
                    ),
                    ExternalStoreConfig::Recursor(_) => if self.validate_only {
                        LoadStep::SkipRecursor { index }
                    } else {
                        LoadStep::Open(StoreAction::Recursor { index, zone_type })
                    },
                    ExternalStoreConfig::Default => LoadStep::Reject,
                }
            },
        }
    }

    /// Takes the handler of the store that was to be opened.
    pub fn store_opened(self, handler: H) -> (res: Self)
        requires
            self.next() is Open,
        ensures
            res.config() == self.config(),
            res.validate_only() == self.validate_only(),
            res.position() == self.position() + 1,
            res.handlers() == self.handlers().push(handler),
    {
        proof {
            use_type_invariant(&self);
            store_count_fits(self.config.zone_type_config);
        }
        let ZoneLoader { config, validate_only, position, mut handlers } = self;
        handlers.push(handler);
        ZoneLoader { config, validate_only, position: position + 1, handlers }
    }

    /// Goes on after a recursor that was to be passed over.
    pub fn store_skipped(self) -> (res: Self)
        requires
            self.next() is SkipRecursor,
        ensures
            res.config() == self.config(),
            res.validate_only() == self.validate_only(),
            res.position() == self.position() + 1,
            res.handlers() == self.handlers(),
    {
        proof {
            use_type_invariant(&self);
            store_count_fits(self.config.zone_type_config);
        }
        let ZoneLoader { config, validate_only, position, handlers } = self;
        ZoneLoader { config, validate_only, position: position + 1, handlers }
    }

    /// What is said of a zone with a store that was not configured.
    pub fn rejected(self) -> (res: String)
        requires
            self.next() is Reject,
        ensures
            res@ == "empty [[zones.stores]] in config"@,
    {
        EMPTY_STORES.to_string()
    }

    /// The handlers of the zone: one for each store that was opened. No store of a zone that
    /// loads was left out of the configuration.
    pub fn finish(self) -> (res: Vec<H>)
        requires
            self.next() is Done,
        ensures
            res@ == self.handlers(),
            res@.len() == opened(
                self.config().zone_type_config,
                self.validate_only(),
                store_count(self.config().zone_type_config) as int,
            ),
            forall|i: int|
                0 <= i < store_count(self.config().zone_type_config) ==> !((#[trigger] load_step(
                    self.config().zone_type_config,
                    self.validate_only(),
                    i,
                )) is Reject),
    {
        proof {
            use_type_invariant(&self);
        }
        let ZoneLoader { config, validate_only, position, handlers } = self;
        handlers
    }
}

/// A zone that is only looked at opens no recursor.
pub proof fn validation_opens_no_recursor(zone: ZoneTypeConfig, position: int)
    ensures
        !(load_step(zone, true, position) matches LoadStep::Open(StoreAction::Recursor { .. })),
{
}

/// Recursors are the only stores that a validation treats otherwise than a start does: every
/// other store is opened by both, or refused by both.
pub proof fn validation_opens_every_other_store(zone: ZoneTypeConfig, position: int)
    requires
        !(load_step(zone, false, position) matches LoadStep::Open(StoreAction::Recursor { .. })),
    ensures
        load_step(zone, true, position) == load_step(zone, false, position),
{
}

/// The number of recursors among the given stores.
pub open spec fn recursors(stores: Seq<ExternalStoreConfig>) -> nat
    decreases stores.len(),
{
    if stores.len() == 0 {
        0
    } else {
        recursors(stores.drop_last()) + if stores.last() is Recursor {
            1nat
        } else {
            0
        }
    }
}

/// The number of stores of a zone that a validation opens: all but the recursors.
pub open spec fn validated_stores(zone: ZoneTypeConfig) -> int {
    match zone {
        ZoneTypeConfig::External { stores } => stores@.len() - recursors(stores@),
        _ => store_count(zone) as int,
    }
}

proof fn opened_of_first(zone: ZoneTypeConfig, n: int)
    requires
        0 <= n <= store_count(zone),
        forall|i: int| 0 <= i < n ==> !((#[trigger] load_step(zone, false, i)) is Reject),
    ensures
        opened(zone, false, n) == n,
        match zone {
            ZoneTypeConfig::External { stores } => opened(zone, true, n) == n - recursors(
                stores@.take(n),
            ),
            _ => opened(zone, true, n) == n,
        },
    decreases n,
{
    if n > 0 {
        assert(!(load_step(zone, false, n - 1) is Reject));
        opened_of_first(zone, n - 1);
        if let ZoneTypeConfig::External { stores } = zone {
            assert(stores@.take(n).drop_last() =~= stores@.take(n - 1));
            assert(stores@.take(n).last() == stores@[n - 1]);
        }
    }
}

/// A zone that loads has a handler for each of its stores; where it is only looked at, for each
/// store that is no recursor.
pub proof fn zone_has_a_handler_per_store(zone: ZoneTypeConfig)
    requires
        forall|i: int|
            0 <= i < store_count(zone) ==> !((#[trigger] load_step(zone, false, i)) is Reject),
    ensures
        opened(zone, false, store_count(zone) as int) == store_count(zone),
        opened(zone, true, store_count(zone) as int) == validated_stores(zone),
{
    opened_of_first(zone, store_count(zone) as int);
    if let ZoneTypeConfig::External { stores } = zone {
        assert(stores@.take(stores@.len() as int) =~= stores@);
    }
}

/// What is to be done next for a zone is about the store at the position that was reached, and
/// says of it what the configuration of the zone says. A server zone opens files and databases
/// under its own kind and with its own transfer policy, and signs just where it has keys. An
/// external zone opens each store by its type, but passes over recursors in a validation. A store
/// that was not configured is rejected, and the end is reached after the last store.
pub proof fn next_step_is_about_the_next_store<H>(loader: &ZoneLoader<H>, res: LoadStep)
    requires
        call_ensures(ZoneLoader::<H>::pending, (loader,), res),
    ensures
        match loader.config().zone_type_config {
            ZoneTypeConfig::Primary(server) => server_store_step(
                server,
                ZoneType::Primary,
                loader.position(),
                res,
            ),
            ZoneTypeConfig::Secondary(server) => server_store_step(
                server,
                ZoneType::Secondary,
                loader.position(),
                res,
            ),
            ZoneTypeConfig::External { stores } => external_store_step(
                stores@,
                loader.validate_only(),
                loader.position(),
                res,
            ),
        },
{
}

/// Whether `step` is right for the store at `position` of a primary or secondary zone.
pub open spec fn server_store_step(
    server: ServerZoneConfig,
    kind: ZoneType,
    position: int,
    step: LoadStep,
) -> bool {
    if position >= server.stores@.len() {
        step is Done
    } else {
        match server.stores@[position] {
            ServerStoreConfig::File(_) => {
                &&& step matches LoadStep::Open(
                    StoreAction::File { index, zone_type, axfr_policy },
                )
                &&& index == position
                &&& zone_type == kind
                &&& axfr_policy == server.axfr_policy
            },
            ServerStoreConfig::Sqlite(_) => {
                &&& step matches LoadStep::Open(
                    StoreAction::Sqlite { index, zone_type, axfr_policy, dnssec_enabled },
                )
                &&& index == position
                &&& zone_type == kind
                &&& axfr_policy == server.axfr_policy
                &&& dnssec_enabled == (server.keys != 0)
            },
            ServerStoreConfig::Default => step is Reject,
        }
    }
}

/// Whether `step` is right for the store at `position` of an external zone.
pub open spec fn external_store_step(
    stores: Seq<ExternalStoreConfig>,
    validate_only: bool,
    position: int,
    step: LoadStep,
) -> bool {
    if position >= stores.len() {
        step is Done
    } else {
        match stores[position] {
            ExternalStoreConfig::Blocklist => {
                &&& step matches LoadStep::Open(StoreAction::Blocklist { index })
                &&& index == position
            },
            ExternalStoreConfig::Forward(_) => {
                &&& step matches LoadStep::Open(StoreAction::Forward { index })
                &&& index == position
            },
            ExternalStoreConfig::Recursor(_) => if validate_only {
                &&& step matches LoadStep::SkipRecursor { index }
                &&& index == position
            } else {
                &&& step matches LoadStep::Open(StoreAction::Recursor { index, zone_type })
                &&& index == position
                &&& zone_type == ZoneType::External
            },
            ExternalStoreConfig::Default => step is Reject,
        }
    }
}

/// The loading of a zone starts at its first store, in the given mode and without handlers; each
/// handler that is handed over comes after those before it, and none is lost at the end.
pub proof fn handlers_are_kept_in_order<H>(
    zone: ZoneConfig,
    validate_only: bool,
    start: Result<ZoneLoader<H>, String>,
    loader: ZoneLoader<H>,
    handler: H,
    opened: ZoneLoader<H>,
    skipped: ZoneLoader<H>,
    handlers: Vec<H>,
)
    requires
        call_ensures(ZoneConfig::load_with_mode::<H>, (zone, Ok(()), validate_only), start),
        call_ensures(ZoneLoader::<H>::store_opened, (loader, handler), opened),
        call_ensures(ZoneLoader::<H>::store_skipped, (loader,), skipped),
        call_ensures(ZoneLoader::<H>::finish, (loader,), handlers),
    ensures
        start matches Ok(first) && first.config() == zone && first.validate_only() == validate_only
            && first.position() == 0 && first.handlers().len() == 0,
        opened.config() == loader.config() && skipped.config() == loader.config(),
        opened.validate_only() == loader.validate_only() && skipped.validate_only()
            == loader.validate_only(),
        opened.position() == loader.position() + 1 && skipped.position() == loader.position() + 1,
        opened.handlers() == loader.handlers().push(handler),
        skipped.handlers() == loader.handlers(),
        handlers@ == loader.handlers(),
{
}

/// A zone whose name cannot be read is not loaded, and says why; neither is one with a store that
/// was not configured.
pub proof fn unloaded_zones_say_why<H>(
    zone: ZoneConfig,
    why: String,
    validate_only: bool,
    res: Result<ZoneLoader<H>, String>,
    loader: ZoneLoader<H>,
    text: String,
)
    requires
        call_ensures(ZoneConfig::load_with_mode::<H>, (zone, Err(why), validate_only), res),
        call_ensures(ZoneLoader::<H>::rejected, (loader,), text),
    ensures
        res matches Err(said) && said@ == "failed to read zone name: "@ + why@,
        text@ == "empty [[zones.stores]] in config"@,
{
}

} // verus!
