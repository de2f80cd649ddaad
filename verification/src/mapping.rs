//! The remote ports that a server has opened.

use std::collections::HashMap;

use vstd::prelude::*;

use crate::text::{decimal, lemma_decimal_reads_back, port_number, push_decimal};

verus! {

/// How a port comes to its mapping.
#[derive(Debug)]
pub enum MappingPlan<'a, M> {
    /// It has one.
    Use(&'a M),
    /// Take the creation lock, and look again.
    Lock,
    /// Open a listener at this address, and register the mapping.
    Open(String),
}

/// The mappings of a server, by port.
#[derive(Debug)]
pub struct Mappings<M> {
    by_port: HashMap<u16, M>,
}

impl<M> View for Mappings<M> {
    type V = Map<u16, M>;

    closed spec fn view(&self) -> Map<u16, M> {
        self.by_port@
    }
}

/// The address at which the listener of a port is opened.
pub open spec fn listener_address(bind_addr: Seq<char>, port: u16) -> Seq<char> {
    bind_addr + ":"@ + decimal(port as nat)
}

/// The mappings after `mapping` was registered for `port`: a port that has a
/// mapping keeps it.
pub open spec fn registered<M>(mappings: Map<u16, M>, port: u16, mapping: M) -> Map<u16, M> {
    if mappings.contains_key(port) {
        mappings
    } else {
        mappings.insert(port, mapping)
    }
}

impl<M> Mappings<M> {
    /// No port is mapped.
    pub fn new() -> (mappings: Mappings<M>)
        ensures
            mappings@ == Map::<u16, M>::empty(),
    {
        Mappings { by_port: HashMap::new() }
    }

    /// The mapping of `port`.
    pub fn get(&self, port: u16) -> (mapping: Option<&M>)
        ensures
            match mapping {
                Some(mapping) => self@.contains_key(port) && self@[port] == *mapping,
                None => !self@.contains_key(port),
            },
    {
        broadcast use vstd::std_specs::hash::group_hash_axioms;

        self.by_port.get(&port)
    }

    /// How `port` comes to its mapping, for a caller that holds the creation
    /// lock (`locked`) or does not.
    pub fn plan(&self, port: u16, locked: bool, bind_addr: &str) -> (plan: MappingPlan<'_, M>)
        ensures
            match plan {
                MappingPlan::Use(mapping) => self@.contains_key(port) && self@[port] == *mapping,
                MappingPlan::Lock => !self@.contains_key(port) && !locked,
                MappingPlan::Open(address) => !self@.contains_key(port) && locked && address@
                    == listener_address(bind_addr@, port) && address@ == bind_addr@ + ":"@
                    + decimal(port as nat),
            },
    {
        match self.get(port) {
            Some(mapping) => MappingPlan::Use(mapping),
            None => {
                if locked {
                    let mut address = bind_addr.to_owned();
                    address.append(":");
                    push_decimal(&mut address, port);
                    MappingPlan::Open(address)
                } else {
                    MappingPlan::Lock
                }
            },
        }
    }

    /// Registers `mapping` for `port`, unless it has one. Whether it had none.
    pub fn register(&mut self, port: u16, mapping: M) -> (fresh: bool)
        ensures
            final(self)@ == registered(old(self)@, port, mapping),
            final(self)@.contains_key(port),
            fresh == !old(self)@.contains_key(port),
    {
        broadcast use vstd::std_specs::hash::group_hash_axioms;

        if self.by_port.contains_key(&port) {
            return false;
        }
        self.by_port.insert(port, mapping);
        true
    }
}

/// The mappings after all of `requests` were registered, one after the other.
pub open spec fn all_registered<M>(mappings: Map<u16, M>, requests: Seq<(u16, M)>) -> Map<u16, M>
    decreases requests.len(),
{
    if requests.len() == 0 {
        mappings
    } else {
        let (port, mapping) = requests.first();
        all_registered(registered(mappings, port, mapping), requests.drop_first())
    }
}

/// The first of `requests` that is for `port`.
pub open spec fn first_for<M>(requests: Seq<(u16, M)>, port: u16) -> Option<M>
    decreases requests.len(),
{
    if requests.len() == 0 {
        None
    } else if requests.first().0 == port {
        Some(requests.first().1)
    } else {
        first_for(requests.drop_first(), port)
    }
}

/// A port that has a mapping keeps it, whatever is registered later; one that
/// has none gets the first that is registered for it, and stays without one
/// if none is.
pub proof fn law_first_mapping_stays<M>(
    mappings: Map<u16, M>,
    requests: Seq<(u16, M)>,
    port: u16,
)
    ensures
        mappings.contains_key(port) ==> all_registered(mappings, requests).contains_key(port)
            && all_registered(mappings, requests)[port] == mappings[port],
        !mappings.contains_key(port) ==> match first_for(requests, port) {
            Some(mapping) => all_registered(mappings, requests).contains_key(port)
                && all_registered(mappings, requests)[port] == mapping,
            None => !all_registered(mappings, requests).contains_key(port),
        },
    decreases requests.len(),
{
    if requests.len() > 0 {
        let (p, m) = requests.first();
        law_first_mapping_stays(registered(mappings, p, m), requests.drop_first(), port);
    }
}

/// A port that has no mapping is opened by whoever holds the creation lock, at
/// the configured address, a colon and the port in base ten; who does not hold
/// it takes it first, and a port that has a mapping gives that one.
pub proof fn law_port_is_opened_at_its_address<M>(
    mappings: &Mappings<M>,
    port: u16,
    locked: bool,
    bind_addr: &str,
    plan: MappingPlan<M>,
)
    requires
        call_ensures(Mappings::<M>::plan, (mappings, port, locked, bind_addr), plan),
    ensures
        mappings@.contains_key(port) ==> plan == MappingPlan::Use(&mappings@[port]),
        !mappings@.contains_key(port) && !locked ==> plan is Lock,
        !mappings@.contains_key(port) && locked ==> (plan matches MappingPlan::Open(address)
            && address@ == bind_addr@ + ":"@ + decimal(port as nat)),
{
}

/// The address of a listener opens with the configured address; what follows
/// is a colon and digits that read back as the port. Different ports are so
/// opened at different addresses.
pub proof fn law_listener_address_names_bind_address_and_port(
    bind_addr: Seq<char>,
    port: u16,
    other: u16,
)
    ensures
        bind_addr.is_prefix_of(listener_address(bind_addr, port)),
        listener_address(bind_addr, port)[bind_addr.len() as int] == ':',
        port_number(listener_address(bind_addr, port).skip(bind_addr.len() + 1int)) == Some(port),
        listener_address(bind_addr, port) == listener_address(bind_addr, other) ==> port == other,
{
    reveal_strlit(":");
    lemma_decimal_reads_back(port as nat);
    lemma_decimal_reads_back(other as nat);
    assert(listener_address(bind_addr, port).skip(bind_addr.len() + 1int) =~= decimal(port as nat));
    assert(listener_address(bind_addr, other).skip(bind_addr.len() + 1int) =~= decimal(other as nat));
}

/// A mapping that is registered is the port's if it had none; every other port
/// keeps what it has, and so does the port if it had one.
pub proof fn law_registering_touches_one_port<M>(
    mappings: Map<u16, M>,
    port: u16,
    mapping: M,
    other: u16,
)
    ensures
        registered(mappings, port, mapping).contains_key(port),
        registered(mappings, port, mapping)[port] == if mappings.contains_key(port) {
            mappings[port]
        } else {
            mapping
        },
        other != port ==> registered(mappings, port, mapping).contains_key(other)
            == mappings.contains_key(other),
        other != port && mappings.contains_key(other) ==> registered(
            mappings,
            port,
            mapping,
        )[other] == mappings[other],
{
}

/// A port's mapping is found exactly where it has one, and none has one at
/// first.
pub proof fn law_mapping_is_found_where_it_is<M>(
    mappings: &Mappings<M>,
    port: u16,
    found: Option<&M>,
    first: Mappings<M>,
)
    requires
        call_ensures(Mappings::<M>::get, (mappings, port), found),
        call_ensures(Mappings::<M>::new, (), first),
    ensures
        mappings@.contains_key(port) ==> found == Some(&mappings@[port]),
        !mappings@.contains_key(port) ==> found is None,
        !first@.contains_key(port),
{
}

/// Registering a mapping tells whether the port had none, and gives it that
/// mapping exactly then; every other port keeps what it has.
pub proof fn law_register_tells_whether_the_port_was_free<M>(
    mappings: &mut Mappings<M>,
    port: u16,
    mapping: M,
    fresh: bool,
    other: u16,
)
    requires
        call_ensures(Mappings::<M>::register, (mappings, port, mapping), fresh),
    ensures
        fresh <==> !old(mappings)@.contains_key(port),
        final(mappings)@.contains_key(port),
        fresh ==> final(mappings)@[port] == mapping,
        !fresh ==> final(mappings)@ == old(mappings)@,
        other != port ==> final(mappings)@.contains_key(other) == old(mappings)@.contains_key(
            other,
        ),
        other != port && old(mappings)@.contains_key(other) ==> final(mappings)@[other] == old(
            mappings,
        )@[other],
{
}

} // verus!
