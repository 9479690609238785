//! How a client is configured.
use crate::client::{AdsClient, ClientView};
use crate::handler::{BoxedHandler, Handler, handles_for};
use crate::resource::KeyView;
use crate::state::{DemandEvent, State, StateView, Waiter};
use crate::table::Table;
use crate::text::{text_values, texts};
use vstd::prelude::*;

verus! {

/// How many requests on demand can be queued.
pub const DEMAND_CAPACITY: usize = 100;

/// What the client takes from the configuration of the proxy.
pub struct ProxyConfig {
    /// Where the server is.
    pub xds_address: Option<String>,
    /// What the proxy adds to the metadata of its node.
    pub proxy_metadata: Table<String, String>,
    /// Whether resources are asked for on demand only.
    pub xds_on_demand: bool,
}

/// How a client is configured.
pub struct ConfigView {
    pub address: Seq<char>,
    pub proxy_metadata: Map<Seq<char>, Seq<char>>,
    pub handlers: Map<Seq<char>, BoxedHandler>,
    pub initial_watches: Seq<Seq<char>>,
    pub on_demand: bool,
}

/// How a client is configured.
pub struct Config {
    address: String,
    proxy_metadata: Table<String, String>,
    handlers: Table<String, BoxedHandler>,
    initial_watches: Vec<String>,
    on_demand: bool,
}

impl View for Config {
    type V = ConfigView;

    closed spec fn view(&self) -> ConfigView {
        ConfigView {
            address: self.address@,
            proxy_metadata: text_values(self.proxy_metadata@),
            handlers: self.handlers@,
            initial_watches: texts(self.initial_watches@),
            on_demand: self.on_demand,
        }
    }
}

impl Config {
    /// Makes a configuration without handlers and without watches.
    pub fn new(config: ProxyConfig) -> (made: Self)
        requires
            config.xds_address is Some,
        ensures
            made@ == (ConfigView {
                address: config.xds_address->0@,
                proxy_metadata: text_values(config.proxy_metadata@),
                handlers: Map::empty(),
                initial_watches: Seq::empty(),
                on_demand: config.xds_on_demand,
            }),
    {
        let made = Config {
            address: config.xds_address.unwrap(),
            proxy_metadata: config.proxy_metadata,
            handlers: Table::new(),
            initial_watches: Vec::new(),
            on_demand: config.xds_on_demand,
        };
        assert(made@.initial_watches =~= Seq::empty());
        made
    }

    /// Sets the handler for a type, with the function that decodes the payloads for it, and
    /// subscribes to the type on each connection.
    pub fn with_watched_handler<
        T: Send + Sync + 'static,
        H: Handler<T>,
        D: Fn(&[u8]) -> Result<T, prost::DecodeError> + Send + Sync + 'static,
    >(self, type_url: String, f: H, decode: D) -> (config: Self)
        requires
            forall|bytes: &[u8]| call_requires(decode, (bytes,)),
        ensures
            exists|h: BoxedHandler| #[trigger]
                handles_for(h, f, decode) && config@ == (ConfigView {
                    handlers: self@.handlers.insert(type_url@, h),
                    initial_watches: self@.initial_watches.push(type_url@),
                    ..self@
                }),
    {
        self.with_handler(type_url.clone(), f, decode).watch(type_url)
    }

    /// Sets the handler for a type, with the function that decodes the payloads for it, in place
    /// of the one that the type had.
    pub fn with_handler<
        T: Send + Sync + 'static,
        H: Handler<T>,
        D: Fn(&[u8]) -> Result<T, prost::DecodeError> + Send + Sync + 'static,
    >(self, type_url: String, f: H, decode: D) -> (config: Self)
        requires
            forall|bytes: &[u8]| call_requires(decode, (bytes,)),
        ensures
            exists|h: BoxedHandler| #[trigger]
                handles_for(h, f, decode) && config@ == (ConfigView {
                    handlers: self@.handlers.insert(type_url@, h),
                    ..self@
                }),
    {
        let mut config = self;
        config.handlers.insert(type_url, BoxedHandler::new(f, decode));
        config
    }

    /// Subscribes to a type on each connection.
    pub fn watch(self, type_url: String) -> (config: Self)
        ensures
            config@ == (ConfigView {
                initial_watches: self@.initial_watches.push(type_url@),
                ..self@
            }),
    {
        let mut config = self;
        config.initial_watches.push(type_url);
        assert(config@.initial_watches =~= self@.initial_watches.push(type_url@));
        config
    }

    /// Makes a client with a demand queue of its own.
    pub fn build(self) -> (client: AdsClient)
        ensures
            client@.config == self@,
            client@.state.known == Set::<KeyView>::empty(),
            client@.state.pending == Map::<KeyView, Seq<Waiter>>::empty(),
            client@.connection_id == 0,
            call_ensures(
                tokio::sync::mpsc::channel::<DemandEvent>,
                (DEMAND_CAPACITY,),
                (client@.state.demand_tx, client@.state.demand),
            ),
    {
        let (demand_tx, demand) = tokio::sync::mpsc::channel::<DemandEvent>(DEMAND_CAPACITY);
        self.build_with(demand_tx, demand)
    }

    /// Makes a client with the two ends of a given demand queue.
    pub fn build_with(
        self,
        demand_tx: tokio::sync::mpsc::Sender<DemandEvent>,
        demand: tokio::sync::mpsc::Receiver<DemandEvent>,
    ) -> (client: AdsClient)
        ensures
            client@ == (ClientView {
                config: self@,
                state: StateView {
                    known: Set::empty(),
                    pending: Map::empty(),
                    demand,
                    demand_tx,
                },
                connection_id: 0,
            }),
    {
        AdsClient::new(self, State::new(demand_tx, demand))
    }

    /// Where the server is.
    pub fn address(&self) -> (address: &String)
        ensures
            address@ == self@.address,
    {
        &self.address
    }

    /// What the proxy adds to the metadata of its node.
    pub fn proxy_metadata(&self) -> (metadata: &Table<String, String>)
        ensures
            text_values(metadata@) == self@.proxy_metadata,
    {
        &self.proxy_metadata
    }

    /// The handler of a type.
    pub fn handler(&self, type_url: &String) -> (handler: Option<&BoxedHandler>)
        ensures
            match handler {
                Some(h) => self@.handlers.contains_key(type_url@) && *h
                    == self@.handlers[type_url@],
                None => !self@.handlers.contains_key(type_url@),
            },
    {
        self.handlers.get(type_url)
    }

    /// The types to subscribe to on each connection.
    pub fn initial_watches(&self) -> (watches: &Vec<String>)
        ensures
            texts(watches@) == self@.initial_watches,
    {
        &self.initial_watches
    }

    /// Whether resources are asked for on demand only.
    pub fn on_demand(&self) -> (on_demand: bool)
        ensures
            on_demand == self@.on_demand,
    {
        self.on_demand
    }
}

/// A hundred requests on demand can be queued.
pub proof fn law_a_hundred_requests_can_be_queued()
    ensures
        DEMAND_CAPACITY == 100,
{
}

/// A new configuration holds what the proxy configures and nothing more: neither handlers nor
/// watches.
pub proof fn law_new_configuration_is_the_proxys(config: ProxyConfig, made: Config, key: Seq<char>)
    requires
        config.xds_address is Some,
        call_ensures(Config::new, (config,), made),
    ensures
        made@.address == config.xds_address->0@,
        made@.on_demand == config.xds_on_demand,
        made@.proxy_metadata.contains_key(key) <==> config.proxy_metadata@.contains_key(key),
        config.proxy_metadata@.contains_key(key) ==> made@.proxy_metadata[key]
            == config.proxy_metadata@[key]@,
        !made@.handlers.contains_key(key),
        made@.initial_watches.len() == 0,
{
}

/// A watch puts its type behind the other watches and changes nothing else.
pub proof fn law_watch_adds_its_type(before: Config, type_url: String, after: Config)
    requires
        call_ensures(Config::watch, (before, type_url), after),
    ensures
        after@.initial_watches.len() == before@.initial_watches.len() + 1,
        after@.initial_watches.last() == type_url@,
        after@.initial_watches.drop_last() == before@.initial_watches,
        after@.handlers == before@.handlers,
        after@.address == before@.address,
        after@.proxy_metadata == before@.proxy_metadata,
        after@.on_demand == before@.on_demand,
{
    assert(after@.initial_watches.drop_last() =~= before@.initial_watches);
}

/// Setting a handler gives it the responses of its type, leaves the handlers of other types and
/// changes nothing else.
pub proof fn law_handler_is_set_for_its_type<
    T: Send + Sync + 'static,
    H: Handler<T>,
    D: Fn(&[u8]) -> Result<T, prost::DecodeError> + Send + Sync + 'static,
>(before: Config, type_url: String, f: H, decode: D, after: Config, other: Seq<char>)
    requires
        call_ensures(Config::with_handler::<T, H, D>, (before, type_url, f, decode), after),
    ensures
        after@.handlers.contains_key(type_url@),
        handles_for(after@.handlers[type_url@], f, decode),
        other != type_url@ ==> (after@.handlers.contains_key(other)
            <==> before@.handlers.contains_key(other)),
        other != type_url@ && before@.handlers.contains_key(other) ==> after@.handlers[other]
            == before@.handlers[other],
        after@.initial_watches == before@.initial_watches,
        after@.address == before@.address,
        after@.proxy_metadata == before@.proxy_metadata,
        after@.on_demand == before@.on_demand,
{
}

/// Setting a watched handler sets the handler and adds the watch.
pub proof fn law_watched_handler_is_set_and_watched<
    T: Send + Sync + 'static,
    H: Handler<T>,
    D: Fn(&[u8]) -> Result<T, prost::DecodeError> + Send + Sync + 'static,
>(before: Config, type_url: String, f: H, decode: D, after: Config, other: Seq<char>)
    requires
        call_ensures(Config::with_watched_handler::<T, H, D>, (before, type_url, f, decode), after),
    ensures
        after@.handlers.contains_key(type_url@),
        handles_for(after@.handlers[type_url@], f, decode),
        other != type_url@ ==> (after@.handlers.contains_key(other)
            <==> before@.handlers.contains_key(other)),
        after@.initial_watches.len() == before@.initial_watches.len() + 1,
        after@.initial_watches.last() == type_url@,
        after@.initial_watches.drop_last() == before@.initial_watches,
        after@.address == before@.address,
        after@.proxy_metadata == before@.proxy_metadata,
        after@.on_demand == before@.on_demand,
{
    assert(after@.initial_watches.drop_last() =~= before@.initial_watches);
}

/// A client that is built has its configuration, knows nothing, keeps nobody waiting and has begun
/// no connection.
pub proof fn law_built_client_begins_empty(config: Config, client: AdsClient, key: KeyView)
    requires
        call_ensures(Config::build, (config,), client),
    ensures
        client@.config == config@,
        !client@.state.known.contains(key),
        !client@.state.pending.contains_key(key),
        client@.connection_id == 0,
        call_ensures(
            tokio::sync::mpsc::channel::<DemandEvent>,
            (100,),
            (client@.state.demand_tx, client@.state.demand),
        ),
{
}

} // verus!
